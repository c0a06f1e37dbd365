use task_wake::{Prerun, SharedTaskHandle, TaskHandle, TaskId, WAKE_VALUE};

fn task(word: usize) -> TaskId {
    TaskId::from_word(word).unwrap()
}

/// Calls `notify` once and returns every identity that was handed to the
/// platform during the call.
fn wakes(notifier: &SharedTaskHandle) -> Vec<TaskId> {
    let mut delivered = Vec::new();
    let woken = notifier.notify(|target, value| {
        assert_eq!(value, WAKE_VALUE);
        delivered.push(target)
    });
    assert_eq!(woken, delivered.first().copied());
    delivered
}

#[test]
fn bound_task_is_woken_once_per_notify() {
    let x = task(0x3ffb_1200);
    let handle = TaskHandle::new();
    assert_eq!(handle.prerun(x.word()), Prerun::Bound);
    let notifier = handle.notifier();
    assert_eq!(wakes(&notifier), vec![x]);
    assert_eq!(wakes(&notifier), vec![x]);
}

#[test]
fn notify_before_prerun_wakes_nobody() {
    let handle = TaskHandle::new();
    let notifier = handle.notifier();
    assert_eq!(wakes(&notifier), vec![]);
    assert_eq!(notifier.notify(|_, _| panic!("no task is bound")), None);
}

#[test]
fn notifier_minted_before_prerun_wakes_after_it() {
    let x = task(17);
    let handle = TaskHandle::new();
    let early = handle.notifier();
    assert_eq!(wakes(&early), vec![]);
    assert_eq!(handle.prerun(x.word()), Prerun::Bound);
    assert_eq!(wakes(&early), vec![x]);
}

#[test]
fn prerun_from_the_same_task_is_idempotent() {
    let x = task(0x1000);
    let handle = TaskHandle::new();
    let notifier = handle.notifier();
    assert_eq!(handle.prerun(x.word()), Prerun::Bound);
    for _ in 0..5 {
        assert_eq!(handle.prerun(x.word()), Prerun::AlreadyBound);
        assert_eq!(wakes(&notifier), vec![x]);
    }
}

#[test]
fn prerun_from_a_second_task_conflicts_and_keeps_the_first() {
    let x = task(0x1000);
    let y = task(0x2000);
    let handle = TaskHandle::new();
    assert_eq!(handle.prerun(x.word()), Prerun::Bound);
    assert_eq!(handle.prerun(y.word()), Prerun::Conflict(x));
    assert_eq!(handle.prerun(y.word()), Prerun::Conflict(x));
    assert_eq!(wakes(&handle.notifier()), vec![x]);
    assert_eq!(handle.prerun(x.word()), Prerun::AlreadyBound);
}

#[test]
fn notify_after_release_wakes_nobody() {
    let x = task(0x1000);
    let handle = TaskHandle::new();
    assert_eq!(handle.prerun(x.word()), Prerun::Bound);
    let notifier = handle.notifier();
    assert!(matches!(handle.try_release(), Ok(())));
    assert_eq!(wakes(&notifier), vec![]);
    assert_eq!(notifier.notify(|_, _| panic!("the handle is gone")), None);
}

#[test]
fn notify_after_drop_wakes_nobody() {
    let notifier = {
        let handle = TaskHandle::new();
        assert_eq!(handle.prerun(9), Prerun::Bound);
        handle.notifier()
    };
    assert_eq!(wakes(&notifier), vec![]);
}

#[test]
fn release_of_an_unbound_handle_succeeds() {
    let handle = TaskHandle::new();
    let notifier = handle.notifier();
    assert!(matches!(handle.try_release(), Ok(())));
    assert_eq!(wakes(&notifier), vec![]);
}

#[test]
fn release_waits_for_a_notify_in_flight() {
    let x = task(0x1000);
    let handle = TaskHandle::new();
    assert_eq!(handle.prerun(x.word()), Prerun::Bound);
    let notifier = handle.notifier();
    let second = handle.notifier();

    let mut owner = Some(handle);
    let mut attempts = 0;
    let woken = notifier.notify(|target, _| {
        assert_eq!(target, x);
        // The notifier holds the storage while it delivers: every attempt
        // made now hands the handle back.
        for _ in 0..3 {
            attempts += 1;
            match owner.take().unwrap().try_release() {
                Ok(()) => panic!("released under a notify in flight"),
                Err(back) => owner = Some(back),
            }
        }
    });
    assert_eq!(woken, Some(x));
    assert_eq!(attempts, 3);

    // The handle that came back is the handle that went in.
    let handle = owner.take().unwrap();
    assert_eq!(handle.prerun(x.word()), Prerun::AlreadyBound);
    assert_eq!(wakes(&second), vec![x]);

    // With no notify in flight the first attempt succeeds.
    assert!(matches!(handle.try_release(), Ok(())));
    assert_eq!(wakes(&notifier), vec![]);
    assert_eq!(wakes(&second), vec![]);
}

#[test]
fn notifies_that_race_with_the_release_wake_once_or_not_at_all() {
    let x = task(0x1000);
    let handle = TaskHandle::new();
    assert_eq!(handle.prerun(x.word()), Prerun::Bound);
    let outer = handle.notifier();
    let inner = handle.notifier();

    let mut owner = Some(handle);
    let mut inner_wakes = Vec::new();
    let mut outer_calls = 0;
    let woken = outer.notify(|target, _| {
        outer_calls += 1;
        assert_eq!(target, x);
        for _ in 0..4 {
            // A second notifier fires while the first is still delivering
            // and the owner keeps trying to release.
            inner_wakes.push(wakes(&inner));
            match owner.take().unwrap().try_release() {
                Ok(()) => panic!("released under a notify in flight"),
                Err(back) => owner = Some(back),
            }
        }
    });
    assert_eq!(woken, Some(x));
    assert_eq!(outer_calls, 1);
    assert_eq!(inner_wakes, vec![vec![x]; 4]);

    let mut handle = owner.take().unwrap();
    let mut attempts = 0;
    loop {
        attempts += 1;
        handle = match handle.try_release() {
            Ok(()) => break,
            Err(back) => back,
        };
    }
    assert_eq!(attempts, 1);
    assert_eq!(wakes(&outer), vec![]);
    assert_eq!(wakes(&inner), vec![]);
}

#[test]
fn notifiers_do_not_keep_the_storage_alive() {
    let handle = TaskHandle::new();
    assert_eq!(handle.prerun(3), Prerun::Bound);
    let notifiers: Vec<SharedTaskHandle> = (0..16).map(|_| handle.notifier()).collect();
    assert!(matches!(handle.try_release(), Ok(())));
    for notifier in &notifiers {
        assert_eq!(wakes(notifier), vec![]);
    }
}

#[test]
fn handles_do_not_share_a_slot() {
    let x = task(0x1000);
    let y = task(0x2000);
    let first = TaskHandle::new();
    let second = TaskHandle::new();
    assert_eq!(first.prerun(x.word()), Prerun::Bound);
    assert_eq!(second.prerun(y.word()), Prerun::Bound);
    assert_eq!(wakes(&first.notifier()), vec![x]);
    assert_eq!(wakes(&second.notifier()), vec![y]);
    let orphan = first.notifier();
    assert!(matches!(first.try_release(), Ok(())));
    assert_eq!(wakes(&orphan), vec![]);
    assert_eq!(wakes(&second.notifier()), vec![y]);
}

#[test]
fn wake_value_is_one_set_bit() {
    assert_eq!(WAKE_VALUE, 1);
    let handle = TaskHandle::new();
    assert_eq!(handle.prerun(5), Prerun::Bound);
    let mut seen = None;
    handle.notifier().notify(|_, value| seen = Some(value));
    assert_eq!(seen, Some(WAKE_VALUE));
}

#[test]
fn prerun_by_the_unset_word_binds_nothing() {
    let x = task(0x1000);
    let handle = TaskHandle::new();
    let notifier = handle.notifier();

    // On an unset slot the word is written, and the slot is as unset as before.
    assert_eq!(handle.prerun(0), Prerun::Bound);
    assert_eq!(wakes(&notifier), vec![]);
    assert_eq!(handle.prerun(0), Prerun::Bound);

    // The first task with a word of its own is bound.
    assert_eq!(handle.prerun(x.word()), Prerun::Bound);
    assert_eq!(wakes(&notifier), vec![x]);

    // On a bound slot the unset word is another task's word.
    assert_eq!(handle.prerun(0), Prerun::Conflict(x));
    assert_eq!(wakes(&notifier), vec![x]);
}

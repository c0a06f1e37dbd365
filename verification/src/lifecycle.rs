//! The decisions of the bridge, on plain values.
//!
//! The owner of a handle and its notifiers meet in one word of shared
//! storage, the slot. The slot starts unset, is bound once, and is gone when
//! the handle is released. What each party does depends only on what it
//! finds when it looks, so each decision here is a function of what was
//! found: the word in the slot, or the fact that the storage is gone.
//! [`Lifecycle`] names the states that the storage passes through, and the
//! laws at the end say what the decisions add up to over a whole life.

use vstd::prelude::*;
use crate::identity::{lemma_slot_of_word, slot_of_word, TaskId, UNSET_WORD};

verus! {

/// What a call of `prerun` found in the slot, and so what it did.
#[must_use]
#[derive(Clone, Copy, Debug, PartialEq, Eq, Structural)]
pub enum Prerun {
    /// The slot was unset, and the caller's word was written to it. The slot
    /// now holds the caller, unless the platform named the caller by the
    /// unset word: then the slot is as unset as before.
    Bound,
    /// The slot already held the caller. Nothing changed.
    AlreadyBound,
    /// The slot holds the given other task, and goes on holding it. A handle
    /// serves one task for all its life, so the caller must not go on.
    Conflict(TaskId),
}

/// The outcome of `prerun` on a slot that holds `stored`, called by the task
/// that the platform names by the word `caller`.
pub open spec fn prerun_outcome(stored: Option<TaskId>, caller: usize) -> Prerun {
    match stored {
        None => Prerun::Bound,
        Some(holder) => if holder.word() == caller {
            Prerun::AlreadyBound
        } else {
            Prerun::Conflict(holder)
        },
    }
}

/// Whom a notifier wakes, if anyone. `resolved` is what the notifier found:
/// `None` where the storage is gone, else the word in the slot.
pub open spec fn wake_target(resolved: Option<usize>) -> Option<TaskId> {
    match resolved {
        None => None,
        Some(word) => slot_of_word(word),
    }
}

/// Decides a call of `prerun`, from the word that the slot held and the word
/// by which the platform names the caller.
pub fn prerun_step(stored: usize, caller: usize) -> (outcome: Prerun)
    ensures
        outcome == prerun_outcome(slot_of_word(stored), caller),
        outcome is Bound <==> stored == UNSET_WORD,
        outcome is AlreadyBound <==> stored != UNSET_WORD && stored == caller,
        outcome matches Prerun::Conflict(holder) ==> holder.word() == stored && holder.wf()
            && stored != caller,
{
    proof {
        lemma_slot_of_word(stored);
    }
    match TaskId::from_word(stored) {
        None => Prerun::Bound,
        Some(holder) => {
            if holder.word() == caller {
                Prerun::AlreadyBound
            } else {
                Prerun::Conflict(holder)
            }
        },
    }
}

/// Decides a call of `notify`, from what the notifier found: the task to
/// wake, or `None` where there is none to wake.
pub fn wake_step(resolved: Option<usize>) -> (target: Option<TaskId>)
    ensures
        target == wake_target(resolved),
        target is None <==> (resolved is None || resolved == Some(UNSET_WORD)),
        target matches Some(task) ==> resolved == Some(task.word()) && task.wf(),
{
    match resolved {
        None => None,
        Some(word) => {
            proof {
                lemma_slot_of_word(word);
            }
            TaskId::from_word(word)
        },
    }
}

/// The storage of a slot at one moment of its life. It starts as
/// [`Lifecycle::Unset`], the first `prerun` makes it [`Lifecycle::Bound`], and
/// the release makes it [`Lifecycle::Destroyed`] for good.
///
/// The states are told apart by what a party finds when it looks, which is
/// all that [`prerun_step`] and [`wake_step`] go by: a new handle makes its
/// storage with the unset word, `prerun` writes the word of its caller where
/// it binds, and a released handle leaves nothing to find.
pub enum Lifecycle {
    /// Alive, and bound to no task yet.
    Unset,
    /// Alive, and bound to the task.
    Bound(TaskId),
    /// Released: the storage is gone.
    Destroyed,
}

impl Lifecycle {
    /// The state of a live storage whose slot holds `word`.
    pub open spec fn holding(word: usize) -> Lifecycle {
        match slot_of_word(word) {
            None => Lifecycle::Unset,
            Some(task) => Lifecycle::Bound(task),
        }
    }

    /// What a party finds that looks at the storage in this state: the word
    /// in the slot, or `None` once the storage is gone.
    pub open spec fn found(self) -> Option<usize> {
        match self {
            Lifecycle::Unset => Some(UNSET_WORD),
            Lifecycle::Bound(task) => Some(task.word()),
            Lifecycle::Destroyed => None,
        }
    }

    /// Whom a call of `notify` wakes in this state.
    pub open spec fn woken(self) -> Option<TaskId> {
        wake_target(self.found())
    }

    /// The state after a call of `prerun` by the task that the platform
    /// names by the word `caller`: the word is written to the slot only
    /// where the outcome is [`Prerun::Bound`].
    pub open spec fn after_prerun(self, caller: usize) -> Lifecycle {
        match self.found() {
            None => self,
            Some(word) => match prerun_outcome(slot_of_word(word), caller) {
                Prerun::Bound => Lifecycle::holding(caller),
                _ => self,
            },
        }
    }

    /// The state after the tasks that the platform names by the words in
    /// `callers` have called `prerun` one after the other.
    pub open spec fn after_preruns(self, callers: Seq<usize>) -> Lifecycle
        decreases callers.len(),
    {
        if callers.len() == 0 {
            self
        } else {
            self.after_preruns(callers.drop_last()).after_prerun(callers.last())
        }
    }

    /// The state after the release.
    pub open spec fn after_release(self) -> Lifecycle {
        Lifecycle::Destroyed
    }
}

/// A bound slot stays as it is: no run of `prerun` calls, whoever makes
/// them, changes a slot that holds a task.
pub proof fn lemma_bound_slot_is_kept(holder: TaskId, callers: Seq<usize>)
    requires
        holder.wf(),
    ensures
        Lifecycle::Bound(holder).after_preruns(callers) == Lifecycle::Bound(holder),
    decreases callers.len(),
{
    if callers.len() > 0 {
        lemma_bound_slot_is_kept(holder, callers.drop_last());
        lemma_slot_of_word(holder.word());
    }
}

/// The first caller is bound, and stays bound: after one or more calls of
/// `prerun` on a fresh slot, the slot holds the task that called first. In
/// particular, calls that all come from one task leave the slot as the
/// first of them made it.
pub proof fn lemma_single_bind(callers: Seq<usize>)
    requires
        callers.len() >= 1,
        callers[0] != UNSET_WORD,
    ensures
        Lifecycle::Unset.after_preruns(callers) == Lifecycle::holding(callers[0]),
        Lifecycle::Unset.after_preruns(callers) matches Lifecycle::Bound(task) && task.word()
            == callers[0],
    decreases callers.len(),
{
    let earlier = callers.drop_last();
    lemma_slot_of_word(UNSET_WORD);
    lemma_slot_of_word(callers[0]);
    if callers.len() == 1 {
        assert(Lifecycle::Unset.after_preruns(earlier) == Lifecycle::Unset);
    } else {
        assert(earlier[0] == callers[0]);
        lemma_single_bind(earlier);
    }
}

/// A second task is turned away: once any calls have bound the slot, a call
/// from a task other than the first caller ends in [`Prerun::Conflict`],
/// which names the task that holds the slot, and the slot keeps that task.
pub proof fn lemma_cross_task_bind_conflicts(callers: Seq<usize>, other: usize)
    requires
        callers.len() >= 1,
        callers[0] != UNSET_WORD,
        other != callers[0],
    ensures
        Lifecycle::Unset.after_preruns(callers).found() matches Some(word) && prerun_outcome(
            slot_of_word(word),
            other,
        ) matches Prerun::Conflict(holder) && holder.word() == callers[0],
        Lifecycle::Unset.after_preruns(callers).after_prerun(other)
            == Lifecycle::Unset.after_preruns(callers),
{
    lemma_single_bind(callers);
    lemma_slot_of_word(callers[0]);
}

/// Nobody is woken before the slot is bound: on a fresh slot, `notify` finds
/// no task to wake.
pub proof fn lemma_no_wake_before_bind()
    ensures
        Lifecycle::Unset.woken() is None,
{
    lemma_slot_of_word(UNSET_WORD);
}

/// The bound task is the one woken: once any calls of `prerun` have bound
/// the slot, every `notify` wakes the task that called first, and no other.
pub proof fn lemma_wake_delivery(callers: Seq<usize>)
    requires
        callers.len() >= 1,
        callers[0] != UNSET_WORD,
    ensures
        Lifecycle::Unset.after_preruns(callers).woken() matches Some(task) && task.word()
            == callers[0],
{
    lemma_single_bind(callers);
    lemma_slot_of_word(callers[0]);
}

/// Nobody is woken after the release: whatever state the storage was in,
/// once it is released `notify` finds no task to wake, and no later call of
/// `prerun` brings one back.
pub proof fn lemma_no_wake_after_release(before: Lifecycle, callers: Seq<usize>)
    ensures
        before.after_release().after_preruns(callers) == Lifecycle::Destroyed,
        Lifecycle::Destroyed.woken() is None,
    decreases callers.len(),
{
    if callers.len() > 0 {
        lemma_no_wake_after_release(before, callers.drop_last());
    }
}

} // verus!

//! The handle that a run loop owns, and the notifiers minted from it.
//!
//! The slot lives in shared storage: an atomic word behind a counted
//! reference. The handle holds the one lasting claim on it. A notifier holds
//! a reference that is no claim, and takes a claim only for the length of one
//! [`SharedTaskHandle::notify`]. Other contexts may read and release at any
//! moment, so Verus is told nothing of what the word holds at a given
//! moment or of how many claims there are: every function here reads once,
//! hands what it read to a decision of [`crate::lifecycle`], and acts on the
//! answer. What does not change is stated: which word a storage was made
//! with, and which storage a handle and a notifier belong to.

use core::sync::atomic::{AtomicUsize, Ordering};
use std::sync::{Arc, Weak};
use vstd::prelude::*;
use crate::identity::{TaskId, UNSET_WORD};
use crate::lifecycle::{prerun_step, wake_step, Prerun};

verus! {

/// The notification value that a notifier hands to the platform with the
/// task to wake. It is not zero, so a task that waits for any bit to be set
/// wakes on it.
pub const WAKE_VALUE: u32 = 1;

/// The identity of the one task that a run loop runs on.
///
/// The slot starts unset, is bound by the first [`TaskHandle::prerun`], and
/// keeps that task until the handle is released.
///
/// The owner ends the handle's life with [`TaskHandle::try_release`],
/// repeated until it succeeds. A handle that is merely dropped gives up its
/// claim without waiting for the notifiers that are at work.
pub struct TaskHandle {
    slot: Arc<AtomicUsize>,
}

/// A reference to the storage of a slot that is no claim on it.
///
/// It holds a `std::sync::Weak`, a type that cannot be declared to Verus: to
/// the proofs a value of it is opaque.
#[verifier::external_body]
struct WeakSlot {
    weak: Weak<AtomicUsize>,
}

/// A notifier: a reference to the slot of a [`TaskHandle`] that does not keep
/// the slot's storage alive. It may be handed to any context, an interrupt
/// handler too, and outlive the handle.
pub struct SharedTaskHandle {
    slot: WeakSlot,
}

/// The word that a storage was made with: the argument of the call of
/// `AtomicUsize::new` that made it. It says nothing of what the storage
/// holds later.
pub uninterp spec fn made_with(storage: AtomicUsize) -> usize;

/// The storage that a notifier refers to: that of the claim it was made from
/// by `Arc::downgrade`. A notifier refers to one storage for all its life,
/// whether or not the storage is still there.
pub uninterp spec fn storage_of(notifier: SharedTaskHandle) -> AtomicUsize;

/// `AtomicUsize::new`: a storage made with `word`.
#[verifier::external_body]
fn new_storage(word: usize) -> (storage: AtomicUsize)
    ensures
        made_with(storage) == word,
{
    AtomicUsize::new(word)
}

/// `Arc::downgrade`: a notifier that refers to the storage that `slot` is a
/// claim on. The notifier itself is no claim.
#[verifier::external_body]
fn downgrade(slot: &Arc<AtomicUsize>) -> (notifier: SharedTaskHandle)
    ensures
        storage_of(notifier) == **slot,
{
    SharedTaskHandle { slot: WeakSlot { weak: Arc::downgrade(slot) } }
}

/// `Weak::upgrade`: a claim on the storage that `notifier` refers to, or
/// `None` where the storage is gone. Which of the two comes back depends on
/// what other contexts have done; stated is only that a claim that comes
/// back is on the notifier's storage.
#[verifier::external_body]
fn upgrade(notifier: &SharedTaskHandle) -> (claim: Option<Arc<AtomicUsize>>)
    ensures
        claim matches Some(storage) ==> *storage == storage_of(*notifier),
{
    notifier.slot.weak.upgrade()
}

/// `Arc::try_unwrap`: the stored value where `slot` was the only claim on the
/// storage, else `slot` itself, handed back. Which of the two comes back
/// depends on what other contexts do; stated is only that a reference that
/// comes back is the one that went in.
#[verifier::external_body]
fn try_unwrap(slot: Arc<AtomicUsize>) -> (unwrapped: Result<AtomicUsize, Arc<AtomicUsize>>)
    ensures
        unwrapped matches Err(back) ==> back == slot,
{
    Arc::try_unwrap(slot)
}

impl TaskHandle {
    /// The storage of this handle's slot.
    pub closed spec fn storage(&self) -> AtomicUsize {
        *self.slot
    }

    /// A handle on a storage of its own, whose slot is unset.
    pub fn new() -> (handle: Self)
        ensures
            made_with(handle.storage()) == UNSET_WORD,
    {
        TaskHandle { slot: Arc::new(new_storage(UNSET_WORD)) }
    }

    /// Mints a notifier for this handle's slot. The notifier takes no claim
    /// on the storage: it neither delays nor prevents the release. Notifiers
    /// may be minted before the slot is bound; they wake nobody until it is.
    pub fn notifier(&self) -> (notifier: SharedTaskHandle)
        ensures
            storage_of(notifier) == self.storage(),
    {
        downgrade(&self.slot)
    }

    /// Binds the handle to the task that calls, unless it is bound already.
    /// `current` is the word by which the platform names that task. The
    /// slot is read once and the outcome is [`prerun_step`] of what was
    /// read; `current` is written to the slot only where the outcome is
    /// [`Prerun::Bound`].
    ///
    /// On [`Prerun::Conflict`] the handle is bound to another task and stays
    /// so. The caller has broken the rule that a handle serves one task, and
    /// must stop rather than park on a handle that will wake someone else.
    pub fn prerun(&self, current: usize) -> (outcome: Prerun)
        ensures
            outcome is AlreadyBound ==> current != UNSET_WORD,
            outcome matches Prerun::Conflict(holder) ==> holder.wf() && holder.word() != current,
    {
        let stored = self.slot.load(Ordering::SeqCst);
        let outcome = prerun_step(stored, current);
        match outcome {
            Prerun::Bound => {
                self.slot.store(current, Ordering::SeqCst);
            },
            _ => {},
        }
        outcome
    }

    /// Tries once to release the storage of the slot, which succeeds where
    /// no notifier holds a claim on it at that moment. From then on every
    /// notifier of this handle finds the storage gone. Where a notifier is
    /// at work, the handle comes back unchanged, to be tried again.
    pub fn try_release(self) -> (released: Result<(), TaskHandle>)
        ensures
            released matches Err(back) ==> back == self,
    {
        // Whether the claim was the last one is for the storage to say;
        // what follows from its answer is for `release_step`.
        let unwrapped = try_unwrap(self.slot);
        release_step(unwrapped)
    }
}

impl SharedTaskHandle {
    /// Wakes the task that the handle is bound to, if there is one to wake,
    /// and returns that task.
    ///
    /// The notifier looks once: the task to wake is [`wake_step`] of what it
    /// found. Where that is a task, `deliver` is called, with the task and
    /// [`WAKE_VALUE`], while the notifier holds a claim on the storage, so
    /// that a release cannot complete under the delivery. Where it is none,
    /// because the slot is still unset or the handle is gone, nothing is
    /// delivered. Being `FnOnce`, `deliver` runs once per call at most.
    pub fn notify<F: FnOnce(TaskId, u32)>(&self, deliver: F) -> (woken: Option<TaskId>)
        requires
            forall|task: TaskId| task.wf() ==> deliver.requires((task, WAKE_VALUE)),
        ensures
            woken matches Some(task) ==> task.wf() && deliver.ensures((task, WAKE_VALUE), ()),
    {
        match upgrade(self) {
            None => wake_step(None),
            Some(claim) => {
                let target = wake_step(Some(claim.load(Ordering::SeqCst)));
                match target {
                    None => {},
                    Some(task) => {
                        deliver(task, WAKE_VALUE);
                    },
                }
                target
            },
        }
    }
}

/// Decides a call of `try_release`, from what the attempt to take the
/// storage back gave: the release is done where the word itself came back,
/// and where the claim came back instead, the result is a handle that holds
/// that claim, for the next attempt.
fn release_step(unwrapped: Result<AtomicUsize, Arc<AtomicUsize>>) -> (released: Result<
    (),
    TaskHandle,
>)
    ensures
        released is Ok <==> unwrapped is Ok,
        unwrapped matches Err(slot) ==> released matches Err(back) && back.slot == slot,
{
    match unwrapped {
        Ok(_) => Ok(()),
        Err(slot) => Err(TaskHandle { slot }),
    }
}

} // verus!

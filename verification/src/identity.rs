//! Platform task identities and the machine word that stores one.

use vstd::prelude::*;

verus! {

/// The word that an unset slot holds. No task has it for its identity.
pub const UNSET_WORD: usize = 0;

/// The identity of a task, as the scheduler names it: one machine word,
/// never [`UNSET_WORD`].
#[derive(Clone, Copy, Debug, PartialEq, Eq, Structural)]
pub struct TaskId {
    word: usize,
}

impl TaskId {
    #[verifier::type_invariant]
    spec fn names_a_task(self) -> bool {
        self.word != UNSET_WORD
    }

    /// The word that stands for this identity.
    pub closed spec fn spec_word(&self) -> usize {
        self.word
    }

    /// Whether the value names a task. Every identity that runs through
    /// executable code does.
    pub open spec fn wf(self) -> bool {
        self.spec_word() != UNSET_WORD
    }

    /// The identity that `word` stands for, or `None` for the unset word.
    pub fn from_word(word: usize) -> (id: Option<TaskId>)
        ensures
            id == slot_of_word(word),
            id is None <==> word == UNSET_WORD,
            id matches Some(task) ==> task.word() == word && task.wf(),
    {
        if word == UNSET_WORD {
            None
        } else {
            Some(TaskId { word })
        }
    }

    /// The word that stands for this identity.
    #[verifier::when_used_as_spec(spec_word)]
    pub fn word(&self) -> (word: usize)
        ensures
            word == self.spec_word(),
            word != UNSET_WORD,
            self.wf(),
    {
        proof {
            use_type_invariant(self);
        }
        self.word
    }
}

/// What a slot holds when its word is `word`: nothing for the unset word,
/// else the identity with that word.
pub closed spec fn slot_of_word(word: usize) -> Option<TaskId> {
    if word == UNSET_WORD {
        None
    } else {
        Some(TaskId { word })
    }
}

/// Reading a word as a slot: only the unset word reads as an empty slot, and
/// any other word reads as an identity that has that word.
pub proof fn lemma_slot_of_word(word: usize)
    ensures
        slot_of_word(word) is None <==> word == UNSET_WORD,
        slot_of_word(word) matches Some(id) ==> id.word() == word && id.wf(),
{
}

} // verus!

//! The process-wide decision whether call stacks are captured.
//!
//! The decision is cached in a single machine word with three states:
//! `0` means not yet decided, `1` means disabled, and any larger value means
//! enabled. The word only ever leaves `0` through a compare-and-swap, so the
//! first thread to commit a decision fixes it for every later reader.

use std::sync::atomic::{AtomicUsize, Ordering};
use vstd::prelude::*;

verus! {

/// The word value of a gate that has not decided yet.
pub const UNDECIDED: usize = 0;

/// The word value of a gate that decided against capturing.
pub const DISABLED: usize = 1;

/// The word value that a gate commits when it decides for capturing.
pub const ENABLED: usize = 2;

/// The ASCII code of the digit `0`, the one switch value that disables.
pub const ZERO_DIGIT: u8 = 48;

/// The decision, if any, that a gate word holds.
pub open spec fn decision_of(word: usize) -> Option<bool> {
    if word == UNDECIDED {
        None
    } else {
        Some(word != DISABLED)
    }
}

/// The word that records a decision.
pub open spec fn word_of(enabled: bool) -> usize {
    if enabled {
        ENABLED
    } else {
        DISABLED
    }
}

/// Whether the switch's value asks for captures: it must be present and
/// must not be exactly the text `0`.
pub open spec fn switch_enables(value: Option<Seq<u8>>) -> bool {
    match value {
        Some(bytes) => bytes != seq![ZERO_DIGIT],
        None => false,
    }
}

/// What a thread reports after trying to commit its own decision `enabled`,
/// given the outcome of the compare-and-swap from the undecided state: its
/// own decision if the swap took place, else the one already committed.
pub open spec fn settled(enabled: bool, outcome: Result<usize, usize>) -> bool {
    match outcome {
        Ok(_) => enabled,
        Err(word) => match decision_of(word) {
            Some(committed) => committed,
            None => enabled,
        },
    }
}

/// The switch's value as a byte sequence.
pub open spec fn switch_view(value: Option<Vec<u8>>) -> Option<Seq<u8>> {
    match value {
        Some(bytes) => Some(bytes@),
        None => None,
    }
}

/// What a call of [`Gate::is_enabled`] reports, given the word it first saw,
/// the switch value it read if that word was undecided, and the outcome of
/// its attempt to commit.
pub open spec fn reported(seen: usize, value: Option<Seq<u8>>, outcome: Result<usize, usize>) -> bool {
    match decision_of(seen) {
        Some(committed) => committed,
        None => settled(switch_enables(value), outcome),
    }
}

/// Reads the decision held by a gate word.
pub fn decode(word: usize) -> (r: Option<bool>)
    ensures
        r == decision_of(word),
{
    if word == UNDECIDED {
        None
    } else {
        Some(word != DISABLED)
    }
}

/// The word to commit for a decision; it is never the undecided word.
pub fn encode(enabled: bool) -> (r: usize)
    ensures
        r == word_of(enabled),
        decision_of(r) == Some(enabled),
{
    if enabled {
        ENABLED
    } else {
        DISABLED
    }
}

/// Decides from the switch's raw value whether captures are enabled.
pub fn enables(value: Option<&[u8]>) -> (r: bool)
    ensures
        r == switch_enables(
            match value {
                Some(bytes) => Some(bytes@),
                None => None,
            },
        ),
{
    match value {
        Some(bytes) => {
            let is_zero = bytes.len() == 1 && bytes[0] == ZERO_DIGIT;
            proof {
                if is_zero {
                    assert(bytes@ =~= seq![ZERO_DIGIT]);
                }
            }
            !is_zero
        },
        None => false,
    }
}

/// Turns the outcome of committing `enabled` into the decision to report.
pub fn settle(enabled: bool, outcome: Result<usize, usize>) -> (r: bool)
    ensures
        r == settled(enabled, outcome),
{
    match outcome {
        Ok(_) => enabled,
        Err(word) => match decode(word) {
            Some(committed) => committed,
            None => enabled,
        },
    }
}

/// When every decision that reaches a gate's word was derived from one and
/// the same switch value, as it is within a process whose environment does
/// not change, every call reports the decision of that value: disabled when
/// the switch is unset or `0`, enabled for any other value.
pub proof fn lemma_report_follows_switch(
    value: Option<Seq<u8>>,
    seen: usize,
    outcome: Result<usize, usize>,
)
    requires
        seen == UNDECIDED || seen == word_of(switch_enables(value)),
        outcome == Ok::<usize, usize>(UNDECIDED) || outcome == Err::<usize, usize>(
            word_of(switch_enables(value)),
        ),
    ensures
        reported(seen, value, outcome) == switch_enables(value),
        value is None ==> !reported(seen, value, outcome),
        value == Some(seq![ZERO_DIGIT]) ==> !reported(seen, value, outcome),
        value matches Some(bytes) && bytes != seq![ZERO_DIGIT] ==> reported(seen, value, outcome),
{
}

/// A switch set to `0` behaves exactly as an unset switch, whatever the
/// gate has seen and however its commit turned out.
pub proof fn lemma_zero_same_as_unset(seen: usize, outcome: Result<usize, usize>)
    ensures
        switch_enables(Some(seq![ZERO_DIGIT])) == switch_enables(None),
        reported(seen, Some(seq![ZERO_DIGIT]), outcome) == reported(seen, None, outcome),
{
}

/// Once a gate's word holds a decision, every later call reports that
/// decision, whatever the switch would read by then.
pub proof fn lemma_decision_is_stable(
    seen: usize,
    value1: Option<Seq<u8>>,
    outcome1: Result<usize, usize>,
    value2: Option<Seq<u8>>,
    outcome2: Result<usize, usize>,
)
    requires
        decision_of(seen) is Some,
    ensures
        reported(seen, value1, outcome1) == decision_of(seen)->0,
        reported(seen, value1, outcome1) == reported(seen, value2, outcome2),
{
}

/// A thread that loses the race to commit reports the winner's decision,
/// not the one it derived from the switch itself.
pub proof fn lemma_loser_reports_winner(value: Option<Seq<u8>>, committed: bool)
    ensures
        reported(UNDECIDED, value, Err(word_of(committed))) == committed,
{
}

/// A capture switch that is decided once and then cached.
pub struct Gate {
    /// The cached decision, encoded as the module documentation describes.
    /// It is public so that a process-wide gate can be built in constant
    /// context, as `Gate { word: AtomicUsize::new(UNDECIDED) }`.
    pub word: AtomicUsize,
}

impl Gate {
    /// A gate that has not decided yet.
    pub fn new() -> (r: Gate) {
        Gate { word: AtomicUsize::new(UNDECIDED) }
    }

    /// Whether captures are enabled.
    ///
    /// If a decision is cached, that decision is returned and `read_switch`
    /// is not called. Otherwise the switch is read, the decision it gives is
    /// committed unless another thread committed one first, and whichever
    /// decision was committed is returned.
    pub fn is_enabled<F: FnOnce() -> Option<Vec<u8>>>(&self, read_switch: F) -> (r: bool)
        requires
            read_switch.requires(()),
        ensures
            exists|seen: usize, value: Option<Vec<u8>>, outcome: Result<usize, usize>|
                {
                    &&& (decision_of(seen) is None ==> read_switch.ensures((), value))
                    &&& r == reported(seen, switch_view(value), outcome)
                },
    {
        let seen = self.word.load(Ordering::SeqCst);
        match decode(seen) {
            Some(committed) => {
                assert(committed == reported(seen, switch_view(None), Ok(UNDECIDED)));
                committed
            },
            None => {
                let value = read_switch();
                let enabled = match &value {
                    Some(bytes) => enables(Some(bytes.as_slice())),
                    None => enables(None),
                };
                let outcome = self.word.compare_exchange(
                    UNDECIDED,
                    encode(enabled),
                    Ordering::SeqCst,
                    Ordering::SeqCst,
                );
                let r = settle(enabled, outcome);
                assert(r == reported(seen, switch_view(value), outcome));
                r
            },
        }
    }
}

} // verus!

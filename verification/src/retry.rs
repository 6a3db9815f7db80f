//! The pause between subscription attempts: it doubles from attempt to
//! attempt up to a cap, and starts over once the stream makes progress.

use crate::changefeed::{Step, StepView};
use vstd::prelude::*;

verus! {

/// Capped exponential backoff, in milliseconds.
#[derive(Debug, Clone, Copy, PartialEq, Eq, Structural)]
pub struct Backoff {
    /// The pause before the first retry.
    pub base_millis: u64,
    /// The longest pause.
    pub cap_millis: u64,
    /// How many retries have been made since the last progress.
    pub attempt: u32,
}

/// `base` doubled `attempt` times.
pub open spec fn doubled(base: nat, attempt: nat) -> nat
    decreases attempt,
{
    if attempt == 0 {
        base
    } else {
        2 * doubled(base, (attempt - 1) as nat)
    }
}

/// The pause before retry number `attempt`, counted from zero: the base
/// doubled that many times, but no more than the cap.
pub open spec fn delay_millis(base: nat, cap: nat, attempt: nat) -> nat {
    if doubled(base, attempt) < cap {
        doubled(base, attempt)
    } else {
        cap
    }
}

/// Doubling never shortens.
pub proof fn lemma_doubled_grows(base: nat, earlier: nat, later: nat)
    requires
        earlier <= later,
    ensures
        doubled(base, earlier) <= doubled(base, later),
        base == 0 ==> doubled(base, later) == 0,
    decreases later,
{
    if later > 0 {
        if earlier < later {
            lemma_doubled_grows(base, earlier, (later - 1) as nat);
        } else {
            lemma_doubled_grows(base, (earlier - 1) as nat, (later - 1) as nat);
        }
    }
}

impl Backoff {
    /// A backoff that has not been used yet.
    pub fn new(base_millis: u64, cap_millis: u64) -> (backoff: Backoff)
        ensures
            backoff == (Backoff { base_millis, cap_millis, attempt: 0 }),
    {
        Backoff { base_millis, cap_millis, attempt: 0 }
    }

    /// Starts over: the stream has made progress.
    pub fn reset(&mut self)
        ensures
            *final(self) == (Backoff { attempt: 0, ..*old(self) }),
    {
        self.attempt = 0;
    }

    /// The pause before the next retry, which is then counted.
    pub fn next_delay(&mut self) -> (millis: u64)
        ensures
            millis == delay_millis(
                old(self).base_millis as nat,
                old(self).cap_millis as nat,
                old(self).attempt as nat,
            ),
            final(self).base_millis == old(self).base_millis,
            final(self).cap_millis == old(self).cap_millis,
            final(self).attempt == if old(self).attempt < u32::MAX {
                old(self).attempt + 1
            } else {
                u32::MAX as int
            },
    {
        let base = self.base_millis;
        let cap = self.cap_millis;
        let attempt = self.attempt;
        let mut delay: u64 = if base < cap {
            base
        } else {
            cap
        };
        let mut doublings: u32 = 0;
        while doublings < attempt && 0 < delay && delay < cap
            invariant
                doublings <= attempt,
                delay == delay_millis(base as nat, cap as nat, doublings as nat),
            decreases attempt - doublings,
        {
            delay = if delay >= cap - delay {
                cap
            } else {
                delay + delay
            };
            doublings = doublings + 1;
        }
        proof {
            lemma_doubled_grows(base as nat, 0, doublings as nat);
            lemma_doubled_grows(base as nat, doublings as nat, attempt as nat);
        }
        if attempt < u32::MAX {
            self.attempt = attempt + 1;
        }
        delay
    }

    /// What a step of the consumer means for the pause: an item that was
    /// consumed is progress and starts the backoff over; an attempt that ends
    /// is followed by the next pause; a fatal step is followed by none.
    pub fn pause_after(&mut self, step: &Step) -> (pause: Option<u64>)
        ensures
            final(self).base_millis == old(self).base_millis,
            final(self).cap_millis == old(self).cap_millis,
            match step@ {
                StepView::Forward(_) | StepView::Skip => pause is None && final(self).attempt == 0,
                StepView::Reopen(_) => pause matches Some(millis) && millis == delay_millis(
                    old(self).base_millis as nat,
                    old(self).cap_millis as nat,
                    old(self).attempt as nat,
                ) && final(self).attempt == if old(self).attempt < u32::MAX {
                    old(self).attempt + 1
                } else {
                    u32::MAX as int
                },
                StepView::Abort(_) => pause is None && final(self).attempt == old(self).attempt,
            },
    {
        match step {
            Step::Forward(_) => {
                self.reset();
                None
            },
            Step::Skip => {
                self.reset();
                None
            },
            Step::Reopen(_) => Some(self.next_delay()),
            Step::Abort(_) => None,
        }
    }
}

} // verus!

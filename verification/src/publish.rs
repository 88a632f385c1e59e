//! The retry policy of publishing: a message is offered to the broker until
//! it is accepted, at most [`MAX_PUBLISH_ATTEMPTS`] times, with a pause of
//! [`RETRY_DELAY_SECONDS`] after each refused attempt.
//!
//! The policy is a state machine: the caller makes an attempt, reports
//! whether it was accepted, and is told what to do next.

use vstd::prelude::*;

verus! {

/// How many times a message is offered before it is given up.
pub const MAX_PUBLISH_ATTEMPTS: u32 = 30;

/// The pause after a refused attempt, in seconds.
pub const RETRY_DELAY_SECONDS: u64 = 1;

/// What to do after an attempt.
#[derive(PartialEq, Eq, Structural)]
pub enum PublishStep {
    /// Stop: the message was accepted (or the policy had already finished).
    Done,
    /// Pause for `seconds`, then make another attempt.
    RetryAfter { seconds: u64 },
    /// Pause for `seconds`, then stop: the last allowed attempt was refused.
    GiveUpAfter { seconds: u64 },
}

/// The progress of publishing one message.
pub struct PublishRetry {
    attempts: u32,
    finished: bool,
}

/// One transition of the policy: from `attempts` attempts made and the
/// `finished` flag, on the report of an attempt, to the new count, the new
/// flag and the step to take.
pub open spec fn retry_step(attempts: nat, finished: bool, accepted: bool) -> (nat, bool, PublishStep) {
    if finished {
        (attempts, true, PublishStep::Done)
    } else if accepted {
        (attempts + 1, true, PublishStep::Done)
    } else if attempts + 1 < MAX_PUBLISH_ATTEMPTS {
        (attempts + 1, false, PublishStep::RetryAfter { seconds: RETRY_DELAY_SECONDS })
    } else {
        (attempts + 1, true, PublishStep::GiveUpAfter { seconds: RETRY_DELAY_SECONDS })
    }
}

impl PublishRetry {
    #[verifier::type_invariant]
    spec fn inv(&self) -> bool {
        &&& self.attempts <= MAX_PUBLISH_ATTEMPTS
        &&& !self.finished ==> self.attempts < MAX_PUBLISH_ATTEMPTS
    }

    /// The number of attempts reported so far.
    pub closed spec fn attempts_made(&self) -> nat {
        self.attempts as nat
    }

    /// Whether publishing has stopped.
    pub closed spec fn is_finished(&self) -> bool {
        self.finished
    }

    /// The policy before the first attempt.
    pub fn new() -> (r: Self)
        ensures
            r.attempts_made() == 0,
            !r.is_finished(),
    {
        PublishRetry { attempts: 0, finished: false }
    }

    /// The number of attempts reported so far.
    pub fn attempts(&self) -> (r: u32)
        ensures
            r == self.attempts_made(),
    {
        self.attempts
    }

    /// Whether publishing has stopped.
    pub fn finished(&self) -> (r: bool)
        ensures
            r == self.is_finished(),
    {
        self.finished
    }

    /// Reports whether the attempt just made was accepted, and tells what to
    /// do next (see [`retry_step`]).
    pub fn after_attempt(&mut self, accepted: bool) -> (r: PublishStep)
        ensures
            (final(self).attempts_made(), final(self).is_finished(), r) == retry_step(
                old(self).attempts_made(),
                old(self).is_finished(),
                accepted,
            ),
    {
        proof {
            use_type_invariant(&*self);
        }
        if self.finished {
            PublishStep::Done
        } else if accepted {
            *self = PublishRetry { attempts: self.attempts + 1, finished: true };
            PublishStep::Done
        } else if self.attempts + 1 < MAX_PUBLISH_ATTEMPTS {
            *self = PublishRetry { attempts: self.attempts + 1, finished: false };
            PublishStep::RetryAfter { seconds: RETRY_DELAY_SECONDS }
        } else {
            *self = PublishRetry { attempts: self.attempts + 1, finished: true };
            PublishStep::GiveUpAfter { seconds: RETRY_DELAY_SECONDS }
        }
    }
}

/// The count and flag after reporting `reports` in order, from the start.
pub open spec fn run_reports(reports: Seq<bool>) -> (nat, bool)
    decreases reports.len(),
{
    if reports.len() == 0 {
        (0, false)
    } else {
        let (a, f) = run_reports(reports.drop_last());
        let (a2, f2, _) = retry_step(a, f, reports.last());
        (a2, f2)
    }
}

/// The step answered to the last of `reports` (which is not empty).
pub open spec fn last_step(reports: Seq<bool>) -> PublishStep {
    let (a, f) = run_reports(reports.drop_last());
    retry_step(a, f, reports.last()).2
}

/// Whatever the reports, no more than [`MAX_PUBLISH_ATTEMPTS`] attempts are
/// ever counted; while publishing goes on, every report was a refusal and
/// each one counted; after [`MAX_PUBLISH_ATTEMPTS`] reports publishing has
/// stopped; and once a report says the message was accepted, publishing has
/// stopped.
pub proof fn lemma_retry_bounded(reports: Seq<bool>)
    ensures
        run_reports(reports).0 <= MAX_PUBLISH_ATTEMPTS,
        !run_reports(reports).1 ==> run_reports(reports).0 == reports.len()
            && run_reports(reports).0 < MAX_PUBLISH_ATTEMPTS
            && !reports.contains(true),
        reports.len() >= MAX_PUBLISH_ATTEMPTS ==> run_reports(reports).1,
        reports.contains(true) ==> run_reports(reports).1,
    decreases reports.len(),
{
    if reports.len() > 0 {
        let prev = reports.drop_last();
        lemma_retry_bounded(prev);
        if reports.contains(true) && !prev.contains(true) {
            let i = choose|i: int| 0 <= i < reports.len() && reports[i] == true;
            if i < prev.len() {
                assert(prev[i] == reports[i]);
            }
        }
        if !prev.contains(true) && !reports.last() {
            assert forall|i: int| 0 <= i < reports.len() implies reports[i] != true by {
                if i < prev.len() {
                    assert(prev[i] == reports[i]);
                }
            }
        }
    }
}

/// A refused attempt is followed by another one exactly when fewer than
/// [`MAX_PUBLISH_ATTEMPTS`] attempts have been made; the answer to the
/// last allowed refused attempt is to give up, and the pause is always
/// [`RETRY_DELAY_SECONDS`].
pub proof fn lemma_retry_answer(reports: Seq<bool>)
    requires
        reports.len() > 0,
        !run_reports(reports.drop_last()).1,
        !reports.last(),
    ensures
        reports.len() < MAX_PUBLISH_ATTEMPTS ==> last_step(reports) == (PublishStep::RetryAfter {
            seconds: RETRY_DELAY_SECONDS,
        }),
        reports.len() == MAX_PUBLISH_ATTEMPTS ==> last_step(reports) == (PublishStep::GiveUpAfter {
            seconds: RETRY_DELAY_SECONDS,
        }),
{
    lemma_retry_bounded(reports.drop_last());
}

} // verus!

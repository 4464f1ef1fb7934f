//! Bounded retries around one moderation call.
//!
//! The caller makes the call and reports what came of it; this module says
//! whether to call again, after what delay, or which verdict stands. After
//! `retries + 1` failed calls the verdict is the one that names the last
//! error, so every frame ends with a verdict.

use crate::reply::{AttemptOutcome, AttemptOutcomeView};
use crate::verdict::{ModerationVerdict, VerdictView, exhausted_verdict};
use vstd::prelude::*;

verus! {

/// How often a failed call is repeated, and how long to wait before each
/// repetition.
#[derive(Clone, Copy, Debug, PartialEq, Eq, Structural)]
pub struct RetryPolicy {
    pub retries: u32,
    pub delay_ms: u64,
}

/// What follows an attempt.
#[derive(Debug)]
pub enum RetryStep {
    /// No further call: this is the verdict on the frame.
    Deliver(ModerationVerdict),
    /// Wait, then make the attempt of the given number.
    RetryAfter { delay_ms: u64, next_attempt: u32 },
}

/// What a [`RetryStep`] holds.
pub enum RetryStepView {
    Deliver(VerdictView),
    RetryAfter { delay_ms: u64, next_attempt: u32 },
}

impl View for RetryStep {
    type V = RetryStepView;

    open spec fn view(&self) -> RetryStepView {
        match self {
            RetryStep::Deliver(verdict) => RetryStepView::Deliver(verdict@),
            RetryStep::RetryAfter { delay_ms, next_attempt } => RetryStepView::RetryAfter {
                delay_ms: *delay_ms,
                next_attempt: *next_attempt,
            },
        }
    }
}

/// What follows the attempt of number `attempt`, counted from 0, that came
/// to `outcome`: an answer stands; a failure is followed by another attempt
/// while `attempt` is below the number of retries, and by the verdict that
/// names the error once it is not.
pub open spec fn step_after(
    policy: RetryPolicy,
    attempt: u32,
    outcome: AttemptOutcomeView,
) -> RetryStepView {
    match outcome {
        AttemptOutcomeView::Answered(verdict) => RetryStepView::Deliver(verdict),
        AttemptOutcomeView::Failed(error) => if attempt < policy.retries {
            RetryStepView::RetryAfter {
                delay_ms: policy.delay_ms,
                next_attempt: (attempt + 1) as u32,
            }
        } else {
            RetryStepView::Deliver(exhausted_verdict(error, (attempt + 1) as nat))
        },
    }
}

/// The number of calls that are made when the attempts from number
/// `attempt` on come to `outcomes`, one after the other, until a verdict
/// stands or `outcomes` is used up.
pub open spec fn calls_made(policy: RetryPolicy, attempt: u32, outcomes: Seq<AttemptOutcomeView>) -> nat
    decreases outcomes.len(),
{
    if outcomes.len() == 0 {
        0
    } else {
        match step_after(policy, attempt, outcomes[0]) {
            RetryStepView::Deliver(_) => 1,
            RetryStepView::RetryAfter { delay_ms, next_attempt } => 1 + calls_made(
                policy,
                next_attempt,
                outcomes.drop_first(),
            ),
        }
    }
}

/// The verdict that stands when the attempts from number `attempt` on come
/// to `outcomes`, if one stands before `outcomes` is used up.
pub open spec fn verdict_reached(
    policy: RetryPolicy,
    attempt: u32,
    outcomes: Seq<AttemptOutcomeView>,
) -> Option<VerdictView>
    decreases outcomes.len(),
{
    if outcomes.len() == 0 {
        None
    } else {
        match step_after(policy, attempt, outcomes[0]) {
            RetryStepView::Deliver(verdict) => Some(verdict),
            RetryStepView::RetryAfter { delay_ms, next_attempt } => verdict_reached(
                policy,
                next_attempt,
                outcomes.drop_first(),
            ),
        }
    }
}

impl RetryPolicy {
    /// The policy of the pipeline: three retries, a fifth of a second apart.
    pub fn standard() -> (r: RetryPolicy)
        ensures
            r == (RetryPolicy { retries: 3, delay_ms: 200 }),
    {
        RetryPolicy { retries: 3, delay_ms: 200 }
    }

    /// Decides what follows the attempt of number `attempt`, counted from
    /// 0, that came to `outcome`.
    pub fn after_attempt(&self, attempt: u32, outcome: AttemptOutcome) -> (r: RetryStep)
        ensures
            r@ == step_after(*self, attempt, outcome@),
    {
        match outcome {
            AttemptOutcome::Answered(verdict) => RetryStep::Deliver(verdict),
            AttemptOutcome::Failed(error) => {
                if attempt < self.retries {
                    RetryStep::RetryAfter { delay_ms: self.delay_ms, next_attempt: attempt + 1 }
                } else {
                    let attempts: u64 = attempt as u64 + 1;
                    RetryStep::Deliver(ModerationVerdict::exhausted(error.as_str(), attempts))
                }
            },
        }
    }
}

/// The attempts on one frame. It is used up by each outcome that it takes
/// in, and hands out its successor only where another call is due: so no
/// more outcomes can be taken in than calls are allowed.
#[derive(Debug)]
pub struct RetryOrchestrator {
    policy: RetryPolicy,
    failed: u32,
}

/// What follows an outcome that a [`RetryOrchestrator`] took in.
#[derive(Debug)]
pub enum RetryTurn {
    /// No further call: this is the verdict on the frame.
    Settled(ModerationVerdict),
    /// Wait, make another call, and report its outcome to `next`.
    Again { delay_ms: u64, next: RetryOrchestrator },
}

impl RetryOrchestrator {
    #[verifier::type_invariant]
    spec fn within_limit(self) -> bool {
        self.failed <= self.policy.retries
    }

    /// The policy that is followed.
    pub closed spec fn policy(self) -> RetryPolicy {
        self.policy
    }

    /// The number of calls made so far, all of which failed.
    pub closed spec fn calls(self) -> u32 {
        self.failed
    }

    /// Before the first call.
    pub fn new(policy: RetryPolicy) -> (r: RetryOrchestrator)
        ensures
            r.policy() == policy,
            r.calls() == 0,
    {
        RetryOrchestrator { policy, failed: 0 }
    }

    /// The number of calls made so far. It never exceeds the number of
    /// retries.
    pub fn calls_made(&self) -> (r: u32)
        ensures
            r == self.calls(),
            r <= self.policy().retries,
    {
        proof {
            use_type_invariant(self);
        }
        self.failed
    }

    /// Takes in the outcome of the next call.
    pub fn record(self, outcome: AttemptOutcome) -> (r: RetryTurn)
        ensures
            self.calls() <= self.policy().retries,
            match step_after(self.policy(), self.calls(), outcome@) {
                RetryStepView::Deliver(verdict) => r matches RetryTurn::Settled(v) && v@
                    == verdict,
                RetryStepView::RetryAfter { delay_ms, next_attempt } => r matches RetryTurn::Again {
                    delay_ms: d,
                    next,
                } && d == delay_ms && next.policy() == self.policy() && next.calls()
                    == next_attempt,
            },
    {
        proof {
            use_type_invariant(&self);
        }
        match self.policy.after_attempt(self.failed, outcome) {
            RetryStep::Deliver(verdict) => RetryTurn::Settled(verdict),
            RetryStep::RetryAfter { delay_ms, next_attempt } => RetryTurn::Again {
                delay_ms,
                next: RetryOrchestrator { policy: self.policy, failed: next_attempt },
            },
        }
    }
}

/// No more than `retries + 1` calls are made, whatever they come to.
pub proof fn calls_are_bounded(policy: RetryPolicy, outcomes: Seq<AttemptOutcomeView>)
    ensures
        calls_made(policy, 0, outcomes) <= policy.retries + 1,
{
    lemma_calls_bounded_from(policy, 0, outcomes);
}

/// The same from any attempt on.
proof fn lemma_calls_bounded_from(
    policy: RetryPolicy,
    attempt: u32,
    outcomes: Seq<AttemptOutcomeView>,
)
    requires
        attempt <= policy.retries,
    ensures
        calls_made(policy, attempt, outcomes) <= policy.retries - attempt + 1,
    decreases outcomes.len(),
{
    if outcomes.len() > 0 && attempt < policy.retries {
        lemma_calls_bounded_from(policy, (attempt + 1) as u32, outcomes.drop_first());
    }
}

/// The first answer ends the attempts: where the calls before number `n`
/// fail and call `n` is answered, `n + 1` calls are made and the verdict is
/// that answer, whatever stands behind it in `outcomes`.
pub proof fn first_answer_stands(policy: RetryPolicy, outcomes: Seq<AttemptOutcomeView>, n: int)
    requires
        0 <= n < outcomes.len(),
        n <= policy.retries,
        forall|i: int| 0 <= i < n ==> outcomes[i] is Failed,
        outcomes[n] is Answered,
    ensures
        calls_made(policy, 0, outcomes) == n + 1,
        verdict_reached(policy, 0, outcomes) == Some(outcomes[n]->Answered_0),
{
    lemma_first_answer_from(policy, 0, outcomes, n);
}

/// The same from any attempt on.
proof fn lemma_first_answer_from(
    policy: RetryPolicy,
    attempt: u32,
    outcomes: Seq<AttemptOutcomeView>,
    n: int,
)
    requires
        0 <= n < outcomes.len(),
        attempt + n <= policy.retries,
        forall|i: int| 0 <= i < n ==> outcomes[i] is Failed,
        outcomes[n] is Answered,
    ensures
        calls_made(policy, attempt, outcomes) == n + 1,
        verdict_reached(policy, attempt, outcomes) == Some(outcomes[n]->Answered_0),
    decreases n,
{
    if n > 0 {
        let rest = outcomes.drop_first();
        assert(outcomes[0] is Failed);
        assert(rest[n - 1] == outcomes[n]);
        assert forall|i: int| 0 <= i < n - 1 implies rest[i] is Failed by {
            assert(rest[i] == outcomes[i + 1]);
        }
        lemma_first_answer_from(policy, (attempt + 1) as u32, rest, n - 1);
    }
}

/// Where every call fails, the verdict after `retries + 1` calls names the
/// last error and the number of calls.
pub proof fn exhaustion_gives_fallback(policy: RetryPolicy, outcomes: Seq<AttemptOutcomeView>)
    requires
        outcomes.len() == policy.retries + 1,
        forall|i: int| 0 <= i < outcomes.len() ==> outcomes[i] is Failed,
    ensures
        calls_made(policy, 0, outcomes) == policy.retries + 1,
        verdict_reached(policy, 0, outcomes) == Some(
            exhausted_verdict(outcomes.last()->Failed_0, (policy.retries + 1) as nat),
        ),
{
    lemma_exhaustion_from(policy, 0, outcomes);
}

/// The same from any attempt on.
proof fn lemma_exhaustion_from(policy: RetryPolicy, attempt: u32, outcomes: Seq<AttemptOutcomeView>)
    requires
        attempt <= policy.retries,
        outcomes.len() == policy.retries - attempt + 1,
        forall|i: int| 0 <= i < outcomes.len() ==> outcomes[i] is Failed,
    ensures
        calls_made(policy, attempt, outcomes) == policy.retries - attempt + 1,
        verdict_reached(policy, attempt, outcomes) == Some(
            exhausted_verdict(outcomes.last()->Failed_0, (policy.retries + 1) as nat),
        ),
    decreases outcomes.len(),
{
    assert(outcomes[0] is Failed);
    if attempt < policy.retries {
        let rest = outcomes.drop_first();
        assert forall|i: int| 0 <= i < rest.len() implies rest[i] is Failed by {
            assert(rest[i] == outcomes[i + 1]);
        }
        assert(rest.last() == outcomes.last());
        lemma_exhaustion_from(policy, (attempt + 1) as u32, rest);
    } else {
        assert(outcomes.last() == outcomes[0]);
    }
}

} // verus!

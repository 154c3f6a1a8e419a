//! Bounded retries around single attempts.
//!
//! The policy does not run attempts itself: a driver runs one, reports how it
//! ended, and is told whether to run another.

use vstd::prelude::*;
use crate::error::AttemptOutcome;

verus! {

/// What to do after an attempt.
#[derive(Clone, Copy, Debug, PartialEq, Eq, Structural)]
pub enum RetryStep {
    /// Run another attempt at once.
    Again,
    /// Stop, with this as the outcome of the whole run.
    Stop(AttemptOutcome),
}

/// The bound in force for a requested bound: values below one count as one.
pub open spec fn effective_bound(max_attempts: u8) -> nat {
    if max_attempts < 1 {
        1
    } else {
        max_attempts as nat
    }
}

/// What follows from an attempt's outcome when `made` attempts were made
/// before it and at most `bound` are allowed: a success stops the run, a
/// failure stops it only when it was the last attempt allowed.
pub open spec fn verdict(bound: nat, made: nat, outcome: AttemptOutcome) -> RetryStep {
    match outcome {
        AttemptOutcome::Success => RetryStep::Stop(AttemptOutcome::Success),
        AttemptOutcome::Failure(e) => if made + 1 >= bound {
            RetryStep::Stop(AttemptOutcome::Failure(e))
        } else {
            RetryStep::Again
        },
    }
}

/// What a run comes to when the attempts, one after another, end as
/// `outcomes` says and `made` attempts were made before: the number of
/// attempts made in all, and the outcome of the run. The outcome is `None`
/// where the run asks for more attempts than `outcomes` holds.
pub open spec fn run_from(bound: nat, made: nat, outcomes: Seq<AttemptOutcome>) -> (nat, Option<AttemptOutcome>)
    decreases outcomes.len(),
{
    if outcomes.len() == 0 {
        (made, None)
    } else {
        match verdict(bound, made, outcomes[0]) {
            RetryStep::Stop(o) => (made + 1, Some(o)),
            RetryStep::Again => run_from(bound, made + 1, outcomes.drop_first()),
        }
    }
}

/// What a run from the start comes to.
pub open spec fn run(bound: nat, outcomes: Seq<AttemptOutcome>) -> (nat, Option<AttemptOutcome>) {
    run_from(bound, 0, outcomes)
}

/// How often an account's check-in has been tried, and how often it may be.
pub struct RetryPolicy {
    bound: u8,
    made: u8,
}

impl RetryPolicy {
    /// The number of attempts allowed: at least one.
    pub closed spec fn bound(&self) -> nat {
        self.bound as nat
    }

    /// The number of attempts reported so far.
    pub closed spec fn made(&self) -> nat {
        self.made as nat
    }

    /// A policy that allows `max_attempts` attempts, or one if that is less.
    pub fn new(max_attempts: u8) -> (r: Self)
        ensures
            r.bound() == effective_bound(max_attempts),
            r.made() == 0,
    {
        RetryPolicy { bound: if max_attempts < 1 { 1 } else { max_attempts }, made: 0 }
    }

    /// The number of attempts allowed.
    pub fn max_attempts(&self) -> (r: u8)
        ensures
            r == self.bound(),
    {
        self.bound
    }

    /// The number of attempts reported so far.
    pub fn attempts(&self) -> (r: u8)
        ensures
            r == self.made(),
    {
        self.made
    }

    /// Takes in how an attempt ended, and says what to do next.
    ///
    /// Any failure is followed by another attempt, without delay, as long as
    /// the bound allows one; the first success, or the failure of the last
    /// attempt allowed, ends the run and is its outcome.
    pub fn record(&mut self, outcome: AttemptOutcome) -> (step: RetryStep)
        ensures
            step == verdict(old(self).bound(), old(self).made(), outcome),
            final(self).bound() == old(self).bound(),
            final(self).made() == if old(self).made() < 255 { old(self).made() + 1 } else { old(self).made() },
    {
        let before = self.made;
        if self.made < 255 {
            self.made = self.made + 1;
        }
        match outcome {
            AttemptOutcome::Success => RetryStep::Stop(AttemptOutcome::Success),
            AttemptOutcome::Failure(e) => {
                if before as u16 + 1 >= self.bound as u16 {
                    RetryStep::Stop(AttemptOutcome::Failure(e))
                } else {
                    RetryStep::Again
                }
            },
        }
    }
}

/// A run in which every attempt fails makes exactly as many attempts as the
/// bound allows, and its outcome is the last of the failures.
pub proof fn lemma_all_failures_exhaust_the_bound(bound: nat, outcomes: Seq<AttemptOutcome>)
    requires
        bound >= 1,
        outcomes.len() >= bound,
        forall|i: int| 0 <= i < bound ==> #[trigger] outcomes[i] is Failure,
    ensures
        run(bound, outcomes) == (bound, Some(outcomes[bound - 1])),
{
    lemma_failures_from(bound, 0, outcomes);
}

/// The same, from a run under way.
proof fn lemma_failures_from(bound: nat, made: nat, outcomes: Seq<AttemptOutcome>)
    requires
        made < bound,
        outcomes.len() >= bound - made,
        forall|i: int| 0 <= i < bound - made ==> #[trigger] outcomes[i] is Failure,
    ensures
        run_from(bound, made, outcomes) == (bound, Some(outcomes[bound - made - 1])),
    decreases outcomes.len(),
{
    assert(outcomes[0] is Failure);
    if made + 1 < bound {
        let rest = outcomes.drop_first();
        assert forall|i: int| 0 <= i < bound - (made + 1) implies #[trigger] rest[i] is Failure by {
            assert(rest[i] == outcomes[i + 1]);
        }
        lemma_failures_from(bound, made + 1, rest);
        assert(rest[bound - (made + 1) - 1] == outcomes[bound - made - 1]);
    }
}

/// With a bound of one, exactly one attempt is made, and its outcome is the
/// outcome of the run, whatever it is.
pub proof fn lemma_bound_of_one_makes_one_attempt(outcomes: Seq<AttemptOutcome>)
    requires
        outcomes.len() >= 1,
    ensures
        run(1, outcomes) == (1nat, Some(outcomes[0])),
{
}

/// A run ends with the first success that the bound lets it reach, after
/// exactly the attempts up to it.
pub proof fn lemma_first_success_ends_the_run(bound: nat, outcomes: Seq<AttemptOutcome>, k: nat)
    requires
        k < bound,
        k < outcomes.len(),
        outcomes[k as int] is Success,
        forall|i: int| 0 <= i < k ==> #[trigger] outcomes[i] is Failure,
    ensures
        run(bound, outcomes) == ((k + 1) as nat, Some(AttemptOutcome::Success)),
{
    lemma_success_from(bound, 0, outcomes, k);
}

/// The same, from a run under way.
proof fn lemma_success_from(bound: nat, made: nat, outcomes: Seq<AttemptOutcome>, k: nat)
    requires
        made + k < bound,
        k < outcomes.len(),
        outcomes[k as int] is Success,
        forall|i: int| 0 <= i < k ==> #[trigger] outcomes[i] is Failure,
    ensures
        run_from(bound, made, outcomes) == ((made + k + 1) as nat, Some(AttemptOutcome::Success)),
    decreases k,
{
    if k > 0 {
        assert(outcomes[0] is Failure);
        let rest = outcomes.drop_first();
        assert(rest[k - 1] == outcomes[k as int]);
        assert forall|i: int| 0 <= i < k - 1 implies #[trigger] rest[i] is Failure by {
            assert(rest[i] == outcomes[i + 1]);
        }
        lemma_success_from(bound, made + 1, rest, (k - 1) as nat);
    }
}

} // verus!

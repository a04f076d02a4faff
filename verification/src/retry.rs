//! When a failed attempt is made again, and after which delay.
//!
//! One logical operation makes at most four attempts. After a failure that
//! may be tried again it waits and makes the next attempt, as long as its
//! budget of three retries lasts; any other outcome ends it at once. The
//! caller makes the attempts and does the waiting: [`RetryBudget::next`]
//! takes the outcome of an attempt and says what to do.

use crate::error::{ErrorView, ShikicrateError};
use vstd::prelude::*;

verus! {

/// The schedule: the delays, in seconds, before the first, the second and
/// the third retry.
pub const RETRY_DELAYS: [u64; 3] = [1, 2, 4];

/// The number of retries that one operation may make: one for each entry
/// of the schedule.
pub const MAX_RETRIES: u8 = 3;

/// The delay, in seconds, that the schedule gives for a retry, counted from
/// zero.
pub open spec fn scheduled_delay(retry: nat) -> u64
    recommends
        retry < MAX_RETRIES,
{
    RETRY_DELAYS[retry as int]
}

/// The delay before the retry that follows a failure: the delay that the
/// service asked for where it asked, and the scheduled one otherwise.
pub open spec fn delay_after(error: ErrorView, retry: nat) -> u64 {
    match error.suggested_delay() {
        Some(seconds) => seconds,
        None => scheduled_delay(retry),
    }
}

/// What to do after an attempt.
pub enum RetryStep<T> {
    /// The operation is over, with this result.
    Finish(Result<T, ShikicrateError>),
    /// Wait this many seconds, then make the next attempt.
    Wait { seconds: u64 },
}

/// What follows an attempt's outcome when `used` retries are spent: success
/// ends the operation, and so does a failure that may not be tried again or
/// that finds the budget spent; any other failure is waited out.
pub open spec fn step_after<T>(used: nat, outcome: Result<T, ShikicrateError>) -> RetryStep<T> {
    match outcome {
        Ok(value) => RetryStep::Finish(Ok(value)),
        Err(error) => if error@.retryable() && used < MAX_RETRIES {
            RetryStep::Wait { seconds: delay_after(error@, used) }
        } else {
            RetryStep::Finish(Err(error))
        },
    }
}

/// The retries that one logical operation has left.
pub struct RetryBudget {
    used: u8,
}

impl RetryBudget {
    #[verifier::type_invariant]
    closed spec fn within_limit(self) -> bool {
        self.used <= MAX_RETRIES
    }

    /// The number of retries spent so far.
    pub closed spec fn used(&self) -> nat {
        self.used as nat
    }

    /// A budget of which nothing is spent.
    pub fn new() -> (budget: RetryBudget)
        ensures
            budget.used() == 0,
    {
        RetryBudget { used: 0 }
    }

    /// The number of retries spent so far.
    pub fn retries_used(&self) -> (used: u8)
        ensures
            used == self.used(),
            used <= MAX_RETRIES,
    {
        proof {
            use_type_invariant(self);
        }
        self.used
    }

    /// Takes the outcome of an attempt and says what follows. A retry is
    /// spent exactly when the answer is to wait.
    pub fn next<T>(&mut self, outcome: Result<T, ShikicrateError>) -> (step: RetryStep<T>)
        ensures
            step == step_after(old(self).used(), outcome),
            final(self).used() == old(self).used() + (if step is Wait {
                1nat
            } else {
                0nat
            }),
            final(self).used() <= MAX_RETRIES,
    {
        proof {
            use_type_invariant(&*self);
        }
        match outcome {
            Ok(value) => RetryStep::Finish(Ok(value)),
            Err(error) => {
                if error.is_retryable() && self.used < MAX_RETRIES {
                    let seconds = match error.suggested_delay() {
                        Some(seconds) => seconds,
                        None => RETRY_DELAYS[self.used as usize],
                    };
                    self.used = self.used + 1;
                    RetryStep::Wait { seconds }
                } else {
                    RetryStep::Finish(Err(error))
                }
            },
        }
    }
}

/// What an operation came to after some attempts.
pub struct Run<T> {
    /// The result, once the operation is over.
    pub result: Option<Result<T, ShikicrateError>>,
    /// The delays that were waited, in order.
    pub delays: Seq<u64>,
    /// The number of attempts whose outcome was looked at.
    pub attempts: nat,
}

/// The course of an operation that has spent `used` retries, when its
/// further attempts end as `outcomes` say, in order. Outcomes after the one
/// that ends the operation are never looked at.
pub open spec fn run_from<T>(outcomes: Seq<Result<T, ShikicrateError>>, used: nat) -> Run<T>
    decreases outcomes.len(),
{
    if outcomes.len() == 0 {
        Run { result: None, delays: Seq::empty(), attempts: 0 }
    } else {
        match step_after(used, outcomes[0]) {
            RetryStep::Finish(result) => Run {
                result: Some(result),
                delays: Seq::empty(),
                attempts: 1,
            },
            RetryStep::Wait { seconds } => {
                let rest = run_from(outcomes.drop_first(), used + 1);
                Run {
                    result: rest.result,
                    delays: seq![seconds] + rest.delays,
                    attempts: rest.attempts + 1,
                }
            },
        }
    }
}

/// The course of a fresh operation whose attempts end as `outcomes` say.
pub open spec fn run<T>(outcomes: Seq<Result<T, ShikicrateError>>) -> Run<T> {
    run_from(outcomes, 0)
}

/// Whether an outcome is a failure that may be tried again.
pub open spec fn is_transient<T>(outcome: Result<T, ShikicrateError>) -> bool {
    match outcome {
        Ok(_) => false,
        Err(error) => error@.retryable(),
    }
}

/// An operation waits once less than it attempts, every attempt but the
/// last one looked at was a failure that may be tried again, and an
/// operation that is over ended with the outcome of its last attempt. That
/// outcome is a success, a failure that may not be tried again, or the
/// failure that found the budget spent.
pub proof fn law_run_shape<T>(outcomes: Seq<Result<T, ShikicrateError>>, used: nat)
    requires
        used <= MAX_RETRIES,
    ensures
        run_from(outcomes, used).attempts <= outcomes.len(),
        run_from(outcomes, used).attempts + used <= MAX_RETRIES + 1,
        forall|i: int|
            0 <= i < run_from(outcomes, used).attempts - 1 ==> is_transient(#[trigger] outcomes[i]),
        match run_from(outcomes, used).result {
            Some(result) => {
                &&& run_from(outcomes, used).attempts >= 1
                &&& run_from(outcomes, used).delays.len() == run_from(outcomes, used).attempts - 1
                &&& result == outcomes[run_from(outcomes, used).attempts - 1]
                &&& (!is_transient(result) || run_from(outcomes, used).attempts + used
                    == MAX_RETRIES + 1)
            },
            None => {
                &&& run_from(outcomes, used).attempts == outcomes.len()
                &&& run_from(outcomes, used).attempts + used <= MAX_RETRIES
                &&& run_from(outcomes, used).delays.len() == outcomes.len()
                &&& forall|i: int| 0 <= i < outcomes.len() ==> is_transient(#[trigger] outcomes[i])
            },
        },
    decreases outcomes.len(),
{
    if outcomes.len() > 0 {
        match step_after(used, outcomes[0]) {
            RetryStep::Finish(_) => {},
            RetryStep::Wait { .. } => {
                let rest = outcomes.drop_first();
                law_run_shape(rest, used + 1);
                let inner = run_from(rest, used + 1);
                let attempts = run_from(outcomes, used).attempts;
                assert forall|i: int| 0 <= i < attempts - 1 implies is_transient(
                    #[trigger] outcomes[i],
                ) by {
                    if i > 0 {
                        assert(outcomes[i] == rest[i - 1]);
                    }
                }
                if inner.result is None {
                    assert forall|i: int| 0 <= i < outcomes.len() implies is_transient(
                        #[trigger] outcomes[i],
                    ) by {
                        if i > 0 {
                            assert(outcomes[i] == rest[i - 1]);
                        }
                    }
                }
            },
        }
    }
}

/// A fresh operation makes at most four attempts and waits at most three
/// times.
pub proof fn law_at_most_four_attempts<T>(outcomes: Seq<Result<T, ShikicrateError>>)
    ensures
        run(outcomes).attempts <= 4,
        run(outcomes).delays.len() <= 3,
        outcomes.len() >= 4 ==> run(outcomes).result is Some,
{
    law_run_shape(outcomes, 0);
}

/// The error that an operation returns is the one of its most recent
/// attempt, not of an earlier one.
pub proof fn law_last_error_is_returned<T>(
    outcomes: Seq<Result<T, ShikicrateError>>,
    error: ShikicrateError,
)
    requires
        run(outcomes).result == Some(Err::<T, ShikicrateError>(error)),
    ensures
        run(outcomes).attempts >= 1,
        outcomes[run(outcomes).attempts - 1] == Err::<T, ShikicrateError>(error),
{
    law_run_shape(outcomes, 0);
}

/// A first failure that may not be tried again is returned at once: after
/// one attempt and without any waiting.
pub proof fn law_terminal_failure_ends_at_once<T>(
    outcomes: Seq<Result<T, ShikicrateError>>,
    error: ShikicrateError,
)
    requires
        outcomes.len() >= 1,
        outcomes[0] == Err::<T, ShikicrateError>(error),
        !error@.retryable(),
    ensures
        run(outcomes).result == Some(Err::<T, ShikicrateError>(error)),
        run(outcomes).attempts == 1,
        run(outcomes).delays.len() == 0,
{
}

/// A success is returned by the attempt that brought it, whatever came
/// before: after `failures` failures that may be tried again, no more than
/// the budget allows, the operation has waited `failures` times.
pub proof fn law_success_after_failures<T>(
    outcomes: Seq<Result<T, ShikicrateError>>,
    used: nat,
    failures: nat,
    value: T,
)
    requires
        used + failures <= MAX_RETRIES,
        failures < outcomes.len(),
        forall|i: int| 0 <= i < failures ==> is_transient(#[trigger] outcomes[i]),
        outcomes[failures as int] == Ok::<T, ShikicrateError>(value),
    ensures
        run_from(outcomes, used).result == Some(Ok::<T, ShikicrateError>(value)),
        run_from(outcomes, used).attempts == failures + 1,
        run_from(outcomes, used).delays.len() == failures,
        forall|i: int|
            0 <= i < failures ==> #[trigger] run_from(outcomes, used).delays[i] == delay_after(
                outcomes[i]->Err_0@,
                used + i as nat,
            ),
    decreases failures,
{
    if failures > 0 {
        assert(is_transient(outcomes[0]));
        let rest = outcomes.drop_first();
        assert forall|i: int| 0 <= i < failures - 1 implies is_transient(#[trigger] rest[i]) by {
            assert(rest[i] == outcomes[i + 1]);
        }
        law_success_after_failures(rest, used + 1, (failures - 1) as nat, value);
        let whole = run_from(outcomes, used);
        let inner = run_from(rest, used + 1);
        assert forall|i: int| 0 <= i < failures implies #[trigger] whole.delays[i] == delay_after(
            outcomes[i]->Err_0@,
            used + i as nat,
        ) by {
            if i > 0 {
                assert(whole.delays[i] == inner.delays[i - 1]);
                assert(rest[i - 1] == outcomes[i]);
            }
        }
    }
}

/// A delay that the service asked for replaces the scheduled delay of the
/// retry that follows and of no other: each retry waits what the failure
/// just before it asked for, or what the schedule gives for its own place.
pub proof fn law_hint_overrides_one_delay<T>(
    outcomes: Seq<Result<T, ShikicrateError>>,
    used: nat,
    i: int,
)
    requires
        used <= MAX_RETRIES,
        0 <= i < run_from(outcomes, used).delays.len(),
    ensures
        i < outcomes.len(),
        outcomes[i] is Err,
        run_from(outcomes, used).delays[i] == delay_after(outcomes[i]->Err_0@, used + i as nat),
    decreases outcomes.len(),
{
    if outcomes.len() > 0 {
        match step_after(used, outcomes[0]) {
            RetryStep::Finish(_) => {},
            RetryStep::Wait { .. } => {
                if i > 0 {
                    let rest = outcomes.drop_first();
                    law_hint_overrides_one_delay(rest, used + 1, i - 1);
                    assert(rest[i - 1] == outcomes[i]);
                }
            },
        }
    }
}

/// Looking at one more outcome, after outcomes that were all waited out,
/// adds the step that follows it to the course so far.
pub proof fn lemma_run_extends<T>(
    outcomes: Seq<Result<T, ShikicrateError>>,
    used: nat,
    outcome: Result<T, ShikicrateError>,
)
    requires
        run_from(outcomes, used).result is None,
    ensures
        run_from(outcomes, used).attempts == outcomes.len(),
        run_from(outcomes.push(outcome), used).attempts == outcomes.len() + 1,
        match step_after(used + outcomes.len(), outcome) {
            RetryStep::Finish(result) => {
                &&& run_from(outcomes.push(outcome), used).result == Some(result)
                &&& run_from(outcomes.push(outcome), used).delays == run_from(outcomes, used).delays
            },
            RetryStep::Wait { seconds } => {
                &&& run_from(outcomes.push(outcome), used).result is None
                &&& run_from(outcomes.push(outcome), used).delays == run_from(
                    outcomes,
                    used,
                ).delays.push(seconds)
            },
        },
    decreases outcomes.len(),
{
    let longer = outcomes.push(outcome);
    if outcomes.len() == 0 {
        let none = longer.drop_first();
        assert(longer[0] == outcome);
        assert(none.len() == 0);
        assert(run_from(none, used + 1).attempts == 0);
        assert(run_from(none, used + 1).delays =~= Seq::empty());
        match step_after(used, outcome) {
            RetryStep::Finish(_) => {},
            RetryStep::Wait { seconds } => {
                assert(run_from(longer, used).delays =~= Seq::<u64>::empty().push(seconds));
            },
        }
    } else {
        assert(longer[0] == outcomes[0]);
        assert(longer.drop_first() =~= outcomes.drop_first().push(outcome));
        match step_after(used, outcomes[0]) {
            RetryStep::Finish(_) => {},
            RetryStep::Wait { seconds: first } => {
                lemma_run_extends(outcomes.drop_first(), used + 1, outcome);
                let inner = run_from(outcomes.drop_first(), used + 1);
                match step_after(used + outcomes.len(), outcome) {
                    RetryStep::Finish(_) => {},
                    RetryStep::Wait { seconds } => {
                        assert(run_from(longer, used).delays =~= run_from(
                            outcomes,
                            used,
                        ).delays.push(seconds));
                    },
                }
            },
        }
    }
}

/// Runs one logical operation to its end: makes an attempt, and after each
/// failure that may be tried again pauses and makes another, while the
/// budget lasts. The result is the one that the engine comes to over the
/// outcomes that the attempts had, each of them looked at, and every delay
/// of that course was paused for.
pub fn execute<T, A, P>(attempt: A, pause: P) -> (result: Result<T, ShikicrateError>) where
    A: Fn() -> Result<T, ShikicrateError>,
    P: Fn(u64),

    requires
        attempt.requires(()),
        forall|seconds: u64| pause.requires((seconds,)),
    ensures
        exists|outcomes: Seq<Result<T, ShikicrateError>>|
            {
                &&& forall|i: int|
                    0 <= i < outcomes.len() ==> attempt.ensures((), #[trigger] outcomes[i])
                &&& #[trigger] run(outcomes).result == Some(result)
                &&& run(outcomes).attempts == outcomes.len()
                &&& 1 <= outcomes.len() <= MAX_RETRIES + 1
                &&& forall|i: int|
                    0 <= i < run(outcomes).delays.len() ==> pause.ensures(
                        (#[trigger] run(outcomes).delays[i],),
                        (),
                    )
            },
{
    let mut budget = RetryBudget::new();
    let ghost mut seen: Seq<Result<T, ShikicrateError>> = Seq::empty();
    loop
        invariant
            attempt.requires(()),
            forall|seconds: u64| pause.requires((seconds,)),
            budget.used() == seen.len(),
            budget.used() <= MAX_RETRIES,
            run(seen).result is None,
            forall|i: int| 0 <= i < seen.len() ==> attempt.ensures((), #[trigger] seen[i]),
            forall|i: int|
                0 <= i < run(seen).delays.len() ==> pause.ensures(
                    (#[trigger] run(seen).delays[i],),
                    (),
                ),
        decreases MAX_RETRIES + 1 - budget.used(),
    {
        let outcome = attempt();
        let ghost looked_at = outcome;
        proof {
            lemma_run_extends(seen, 0, looked_at);
        }
        match budget.next(outcome) {
            RetryStep::Finish(result) => {
                proof {
                    let all = seen.push(looked_at);
                    assert(run(all).result == Some(result));
                    law_run_shape(all, 0);
                }
                return result;
            },
            RetryStep::Wait { seconds } => {
                pause(seconds);
                proof {
                    seen = seen.push(looked_at);
                }
            },
        }
    }
}

} // verus!

//! Waiting for the runtime to come up. The client launches the runtime and
//! then tries to connect, again and again at a fixed interval, until it gets
//! through. This module decides; the caller launches, connects and sleeps.
use vstd::prelude::*;

verus! {

/// How long to wait between two attempts, and how many attempts to make.
#[derive(Clone, Copy, Debug, PartialEq, Eq, Structural)]
pub struct RetryPolicy {
    /// Milliseconds between an attempt that failed and the next one.
    pub interval_ms: u64,
    /// The number of attempts after which the client gives up, if there is
    /// one.
    pub max_attempts: Option<u64>,
}

/// What came of one attempt to connect.
#[derive(Clone, Copy, Debug, PartialEq, Eq, Structural)]
pub enum ConnectOutcome {
    Connected,
    Unreachable,
}

/// Where the client stands in its wait. `attempts` counts the attempts that
/// have ended; the count stops at the largest number it can hold.
#[derive(Clone, Copy, Debug, PartialEq, Eq, Structural)]
pub enum StartupState {
    Connecting { attempts: u64 },
    Ready { attempts: u64 },
    GaveUp { attempts: u64 },
}

/// What the caller does next.
#[derive(Clone, Copy, Debug, PartialEq, Eq, Structural)]
pub enum StartupAction {
    /// Launch the runtime, then try to connect.
    LaunchAndConnect,
    /// Sleep for so many milliseconds, then try to connect.
    SleepAndConnect { interval_ms: u64 },
    /// The connection stands: return success.
    Finish,
    /// The attempts are used up: report that the runtime is unreachable.
    Fail,
}

/// One more than `attempts`, or `attempts` where there is no such number.
pub open spec fn one_more(attempts: u64) -> u64 {
    if attempts < u64::MAX {
        (attempts + 1) as u64
    } else {
        attempts
    }
}

/// Whether `attempts` attempts use up what `policy` allows.
pub open spec fn used_up(policy: RetryPolicy, attempts: u64) -> bool {
    match policy.max_attempts {
        Some(most) => attempts >= most,
        None => false,
    }
}

/// The state after `outcome` in `state`. A client that is ready or has given
/// up stays so.
pub open spec fn next_state(policy: RetryPolicy, state: StartupState, outcome: ConnectOutcome)
    -> StartupState {
    match state {
        StartupState::Connecting { attempts } => match outcome {
            ConnectOutcome::Connected => StartupState::Ready { attempts: one_more(attempts) },
            ConnectOutcome::Unreachable => if used_up(policy, one_more(attempts)) {
                StartupState::GaveUp { attempts: one_more(attempts) }
            } else {
                StartupState::Connecting { attempts: one_more(attempts) }
            },
        },
        _ => state,
    }
}

/// What the caller does in `state`, once it has been reached.
pub open spec fn action_in(policy: RetryPolicy, state: StartupState) -> StartupAction {
    match state {
        StartupState::Connecting { .. } => StartupAction::SleepAndConnect {
            interval_ms: policy.interval_ms,
        },
        StartupState::Ready { .. } => StartupAction::Finish,
        StartupState::GaveUp { .. } => StartupAction::Fail,
    }
}

/// The state after the outcomes `outcomes`, in order, from `state` on.
pub open spec fn after(policy: RetryPolicy, state: StartupState, outcomes: Seq<ConnectOutcome>)
    -> StartupState
    decreases outcomes.len(),
{
    if outcomes.len() == 0 {
        state
    } else {
        next_state(policy, after(policy, state, outcomes.drop_last()), outcomes.last())
    }
}

impl RetryPolicy {
    /// One attempt a second, for as long as it takes.
    pub fn wait_until_ready() -> (policy: RetryPolicy)
        ensures
            policy == (RetryPolicy { interval_ms: 1000, max_attempts: None }),
    {
        RetryPolicy { interval_ms: 1000, max_attempts: None }
    }
}

/// The state in which the wait begins, and the first thing to do.
pub fn begin() -> (r: (StartupState, StartupAction))
    ensures
        r.0 == (StartupState::Connecting { attempts: 0 }),
        r.1 == StartupAction::LaunchAndConnect,
{
    (StartupState::Connecting { attempts: 0 }, StartupAction::LaunchAndConnect)
}

/// Takes the outcome of an attempt: the next state, and what to do in it.
pub fn step(policy: &RetryPolicy, state: StartupState, outcome: ConnectOutcome) -> (r: (
    StartupState,
    StartupAction,
))
    ensures
        r.0 == next_state(*policy, state, outcome),
        r.1 == action_in(*policy, r.0),
{
    match state {
        StartupState::Connecting { attempts } => {
            let attempts: u64 = if attempts < u64::MAX {
                attempts + 1
            } else {
                attempts
            };
            match outcome {
                ConnectOutcome::Connected => (
                    StartupState::Ready { attempts },
                    StartupAction::Finish,
                ),
                ConnectOutcome::Unreachable => {
                    let used_up: bool = match policy.max_attempts {
                        Some(most) => attempts >= most,
                        None => false,
                    };
                    if used_up {
                        (StartupState::GaveUp { attempts }, StartupAction::Fail)
                    } else {
                        (
                            StartupState::Connecting { attempts },
                            StartupAction::SleepAndConnect { interval_ms: policy.interval_ms },
                        )
                    }
                },
            }
        },
        StartupState::Ready { .. } => (state, StartupAction::Finish),
        StartupState::GaveUp { .. } => (state, StartupAction::Fail),
    }
}

/// `count` attempts that did not get through.
pub open spec fn unreachable_times(count: nat) -> Seq<ConnectOutcome> {
    Seq::new(count, |i: int| ConnectOutcome::Unreachable)
}

/// What the count of attempts shows after `attempts` attempts: their number,
/// or the largest number the count holds where there were more.
pub open spec fn counted(attempts: nat) -> u64 {
    if attempts <= u64::MAX {
        attempts as u64
    } else {
        u64::MAX
    }
}

/// A client without a limit on its attempts never gives up: after any number
/// of attempts that did not get through it is still connecting, and has
/// counted them.
pub proof fn keeps_trying(policy: RetryPolicy, failures: nat)
    requires
        policy.max_attempts is None,
    ensures
        after(policy, StartupState::Connecting { attempts: 0 }, unreachable_times(failures)) == (
        StartupState::Connecting { attempts: counted(failures) }),
    decreases failures,
{
    if failures > 0 {
        let outcomes = unreachable_times(failures);
        assert(outcomes.drop_last() =~= unreachable_times((failures - 1) as nat));
        keeps_trying(policy, (failures - 1) as nat);
    }
}

/// A client with a limit on its attempts gives up on the attempt that uses the
/// limit up, and not before.
pub proof fn gives_up_at_the_limit(policy: RetryPolicy, most: u64, failures: nat)
    requires
        policy.max_attempts == Some(most),
        failures <= most,
    ensures
        after(policy, StartupState::Connecting { attempts: 0 }, unreachable_times(failures))
            == if failures == most && most > 0 {
            StartupState::GaveUp { attempts: most }
        } else {
            StartupState::Connecting { attempts: failures as u64 }
        },
    decreases failures,
{
    if failures > 0 {
        let outcomes = unreachable_times(failures);
        assert(outcomes.drop_last() =~= unreachable_times((failures - 1) as nat));
        gives_up_at_the_limit(policy, most, (failures - 1) as nat);
    }
}

/// A client without a limit on its attempts is ready exactly when an attempt
/// gets through. After any number of attempts that did not and one that did,
/// it is ready and is told to finish, and it has counted one attempt more
/// than there were failures. After each failure it was told to sleep and to
/// connect again, never to fail.
pub proof fn ready_after_first_success(policy: RetryPolicy, failures: nat)
    requires
        policy.max_attempts is None,
    ensures
        after(
            policy,
            StartupState::Connecting { attempts: 0 },
            unreachable_times(failures).push(ConnectOutcome::Connected),
        ) == (StartupState::Ready { attempts: counted(failures + 1) }),
        failures < u64::MAX ==> counted(failures + 1) == failures + 1,
        action_in(
            policy,
            after(
                policy,
                StartupState::Connecting { attempts: 0 },
                unreachable_times(failures).push(ConnectOutcome::Connected),
            ),
        ) == StartupAction::Finish,
        forall|k: nat|
            k <= failures ==> action_in(
                policy,
                #[trigger] after(
                    policy,
                    StartupState::Connecting { attempts: 0 },
                    unreachable_times(k),
                ),
            ) == (StartupAction::SleepAndConnect { interval_ms: policy.interval_ms }),
{
    let outcomes = unreachable_times(failures).push(ConnectOutcome::Connected);
    assert(outcomes.drop_last() =~= unreachable_times(failures));
    keeps_trying(policy, failures);
    assert forall|k: nat| k <= failures implies action_in(
        policy,
        #[trigger] after(policy, StartupState::Connecting { attempts: 0 }, unreachable_times(k)),
    ) == (StartupAction::SleepAndConnect { interval_ms: policy.interval_ms }) by {
        keeps_trying(policy, k);
    }
}

} // verus!

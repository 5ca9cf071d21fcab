//! What holds of every supervised daemon: the restart budget, cancellation,
//! and the finality of termination.

use vstd::prelude::*;

use crate::daemon::DaemonAction;
use crate::daemon::DaemonEvent;
use crate::daemon::DaemonHandleView;
use crate::daemon::DaemonStatus;
use crate::daemon::RestartPolicy;

verus! {

/// How often the supervisor runs the body, starting from `handle`, when every
/// run completes and nobody cancels. At most `fuel` attempts are followed.
pub open spec fn runs_to_completion(
    handle: DaemonHandleView,
    policy: RestartPolicy,
    fuel: nat,
) -> nat
    decreases fuel,
{
    if fuel == 0 {
        0
    } else {
        let (attempted, action) = handle.step(policy, DaemonEvent::Attempt);
        match action {
            DaemonAction::Race => 1 + runs_to_completion(
                attempted.step(policy, DaemonEvent::Completed).0,
                policy,
                (fuel - 1) as nat,
            ),
            _ => 0,
        }
    }
}

/// The handle once the supervisor of [`runs_to_completion`] has left its
/// loop, or after `fuel` attempts if it has not by then.
pub open spec fn settled(handle: DaemonHandleView, policy: RestartPolicy, fuel: nat) ->
    DaemonHandleView
    decreases fuel,
{
    if fuel == 0 {
        handle
    } else {
        let (attempted, action) = handle.step(policy, DaemonEvent::Attempt);
        match action {
            DaemonAction::Race => settled(
                attempted.step(policy, DaemonEvent::Completed).0,
                policy,
                (fuel - 1) as nat,
            ),
            _ => attempted,
        }
    }
}

proof fn lemma_budget_from(handle: DaemonHandleView, policy: RestartPolicy, max: usize, fuel: nat)
    requires
        policy.max_restart_time == Some(max),
        max < usize::MAX,
        handle.can_kill,
        handle.state == DaemonStatus::Starting,
        handle.restarted <= max + 1,
        fuel >= max + 2 - handle.restarted,
    ensures
        runs_to_completion(handle, policy, fuel) == max + 1 - handle.restarted,
        settled(handle, policy, fuel).state == DaemonStatus::Terminated,
        settled(handle, policy, fuel).can_kill == handle.can_kill,
        settled(handle, policy, fuel).can_wait == handle.can_wait,
        settled(handle, policy, fuel).is_guarded == handle.is_guarded,
    decreases max + 1 - handle.restarted,
{
    let (attempted, action) = handle.step(policy, DaemonEvent::Attempt);
    if handle.restarted <= max {
        let next = attempted.step(policy, DaemonEvent::Completed).0;
        assert(next.restarted == handle.restarted + 1);
        lemma_budget_from(next, policy, max, (fuel - 1) as nat);
    }
}

/// The restart budget: under `max_restart_time = Some(max)`, a freshly
/// launched daemon whose body always completes and that nobody cancels is
/// run exactly `max + 1` times; then the supervisor terminates it. This is so however far ahead
/// one looks, as long as it is far enough to see the end.
///
/// The attempt counter has the width of `usize` and wraps, so the budget
/// `usize::MAX` is never exhausted and is left out.
pub proof fn restart_budget(policy: RestartPolicy, max: usize)
    requires
        policy.max_restart_time == Some(max),
        max < usize::MAX,
    ensures
        forall|fuel: nat|
            fuel >= max + 2 ==> #[trigger] runs_to_completion(
                DaemonHandleView::launched(policy),
                policy,
                fuel,
            ) == max + 1,
        forall|fuel: nat|
            fuel >= max + 2 ==> (#[trigger] settled(
                DaemonHandleView::launched(policy),
                policy,
                fuel,
            )).state == DaemonStatus::Terminated,
{
    assert forall|fuel: nat| fuel >= max + 2 implies #[trigger] runs_to_completion(
        DaemonHandleView::launched(policy),
        policy,
        fuel,
    ) == max + 1 by {
        lemma_budget_from(DaemonHandleView::launched(policy), policy, max, fuel);
    }
    assert forall|fuel: nat| fuel >= max + 2 implies (#[trigger] settled(
        DaemonHandleView::launched(policy),
        policy,
        fuel,
    )).state == DaemonStatus::Terminated by {
        lemma_budget_from(DaemonHandleView::launched(policy), policy, max, fuel);
    }
}

/// Termination is final: whatever is reported to a terminated handle, it
/// stays as it is and the loop is told nothing to do, so no further run
/// occurs.
pub proof fn terminated_is_absorbing(
    handle: DaemonHandleView,
    policy: RestartPolicy,
    event: DaemonEvent,
)
    requires
        handle.state == DaemonStatus::Terminated,
    ensures
        handle.step(policy, event) == (handle, DaemonAction::Ignore),
        forall|fuel: nat| runs_to_completion(handle, policy, fuel) == 0,
{
    assert forall|fuel: nat| runs_to_completion(handle, policy, fuel) == 0 by {
        reveal_with_fuel(runs_to_completion, 2);
    }
}

/// Cancellation wins: a cancellation that arrives while the body is in
/// flight terminates the daemon and ends the loop, whatever the policy and
/// however far the body has come.
pub proof fn cancellation_wins(handle: DaemonHandleView, policy: RestartPolicy)
    requires
        handle.state == DaemonStatus::Running,
    ensures
        handle.step(policy, DaemonEvent::Cancelled) == (
            handle.with_state(DaemonStatus::Terminated),
            DaemonAction::Finish,
        ),
{
}

/// Cancellation wins also when it was requested before the race began, for
/// instance during the pause between two runs: the next attempt starts no
/// run, and a run that has completed meanwhile is not followed by another.
/// Either report terminates the daemon and ends the loop.
pub proof fn requested_cancellation_ends_supervision(
    handle: DaemonHandleView,
    policy: RestartPolicy,
)
    requires
        !handle.can_kill,
    ensures
        handle.state == DaemonStatus::Starting ==> {
            &&& handle.step(policy, DaemonEvent::Attempt).1 == DaemonAction::Finish
            &&& handle.step(policy, DaemonEvent::Attempt).0.state == DaemonStatus::Terminated
        },
        handle.state == DaemonStatus::Running ==> {
            &&& handle.step(policy, DaemonEvent::Completed) == (
                handle.with_state(DaemonStatus::Terminated),
                DaemonAction::Finish,
            )
            &&& handle.step(policy, DaemonEvent::Cancelled) == (
                handle.with_state(DaemonStatus::Terminated),
                DaemonAction::Finish,
            )
        },
        forall|fuel: nat| runs_to_completion(handle, policy, fuel) == 0,
{
    assert forall|fuel: nat| runs_to_completion(handle, policy, fuel) == 0 by {
        reveal_with_fuel(runs_to_completion, 2);
    }
}

/// After `kill_guard` no run is started any more, whatever the handle was
/// before.
pub proof fn no_run_starts_after_kill_guard(handle: DaemonHandleView, policy: RestartPolicy)
    ensures
        forall|fuel: nat| runs_to_completion(handle.kill_guard().0, policy, fuel) == 0,
{
    requested_cancellation_ends_supervision(handle.kill_guard().0, policy);
}

/// Every transition follows the lifecycle: `Starting` leads to `Running` or
/// `Terminated`, `Running` to `Starting` or `Terminated`, and nothing else
/// changes the status. The channel ends and the guard flag are never touched.
pub proof fn step_follows_lifecycle(
    handle: DaemonHandleView,
    policy: RestartPolicy,
    event: DaemonEvent,
)
    ensures
        ({
            let next = handle.step(policy, event).0;
            &&& next.can_kill == handle.can_kill
            &&& next.can_wait == handle.can_wait
            &&& next.is_guarded == handle.is_guarded
            &&& next.state != handle.state ==> match (handle.state, next.state) {
                (DaemonStatus::Starting, DaemonStatus::Running) => true,
                (DaemonStatus::Starting, DaemonStatus::Terminated) => true,
                (DaemonStatus::Running, DaemonStatus::Starting) => true,
                (DaemonStatus::Running, DaemonStatus::Terminated) => true,
                _ => false,
            }
        }),
{
}

/// `kill_guard` is idempotent: a second call changes nothing and sends
/// nothing.
pub proof fn kill_guard_is_idempotent(handle: DaemonHandleView)
    ensures
        handle.kill_guard().0.kill_guard() == (handle.kill_guard().0, false),
{
}

} // verus!

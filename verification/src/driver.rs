use vstd::prelude::*;
use crate::error::FetchError;
use crate::status::ServerStatus;

verus! {

/// What one round of the polling loop does with a fetch outcome: wait the
/// configured number of seconds and retry, or notify once and stop.
#[derive(Debug, PartialEq, Eq)]
pub enum LoopStep {
    /// The fetch failed; log the error and sleep this many seconds.
    WaitError(FetchError, u64),
    /// The server is down for maintenance; log it and sleep this many seconds.
    WaitMaintenance(u64),
    /// The server is reachable with this status; log it, notify, and stop.
    Finish(ServerStatus),
}

/// The driver's whole decision rule for one fetch outcome: any error and
/// a maintenance status wait and retry; every other status ends the run.
pub open spec fn spec_step(outcome: Result<ServerStatus, FetchError>, interval: u64) -> LoopStep {
    match outcome {
        Err(e) => LoopStep::WaitError(e, interval),
        Ok(ServerStatus::Maintenance) => LoopStep::WaitMaintenance(interval),
        Ok(s) => LoopStep::Finish(s),
    }
}

/// Decides what the polling loop does with one fetch outcome.
pub fn decide(outcome: Result<ServerStatus, FetchError>, interval: u64) -> (step: LoopStep)
    ensures
        step == spec_step(outcome, interval),
{
    match outcome {
        Err(e) => LoopStep::WaitError(e, interval),
        Ok(ServerStatus::Maintenance) => LoopStep::WaitMaintenance(interval),
        Ok(s) => LoopStep::Finish(s),
    }
}

/// The steps a run of the polling loop takes on a sequence of fetch
/// outcomes: one step per outcome, in order, stopping with the first
/// outcome that finishes the run; later outcomes are never reached.
pub open spec fn driver_plan(
    outcomes: Seq<Result<ServerStatus, FetchError>>,
    interval: u64,
) -> Seq<LoopStep>
    decreases outcomes.len(),
{
    if outcomes.len() == 0 {
        Seq::empty()
    } else {
        let step = spec_step(outcomes[0], interval);
        if step is Finish {
            seq![step]
        } else {
            seq![step] + driver_plan(outcomes.drop_first(), interval)
        }
    }
}

/// Replays the driver's decisions over a sequence of fetch outcomes and
/// returns the steps the loop would take, in order.
pub fn plan_driver(outcomes: Vec<Result<ServerStatus, FetchError>>, interval: u64) -> (plan: Vec<
    LoopStep,
>)
    ensures
        plan@ == driver_plan(outcomes@, interval),
{
    let ghost all = outcomes@;
    let mut rest = outcomes;
    let mut plan: Vec<LoopStep> = Vec::new();
    let mut stopped = false;
    proof {
        assert(Seq::<LoopStep>::empty() + driver_plan(all, interval) =~= driver_plan(
            all,
            interval,
        ));
    }
    while !stopped && rest.len() > 0
        invariant
            stopped ==> driver_plan(all, interval) == plan@,
            !stopped ==> driver_plan(all, interval) == plan@ + driver_plan(rest@, interval),
        decreases rest@.len(),
    {
        let ghost prev_rest = rest@;
        let ghost prev_plan = plan@;
        let o = rest.remove(0);
        let step = decide(o, interval);
        let is_finish = match &step {
            LoopStep::Finish(_) => true,
            _ => false,
        };
        proof {
            assert(rest@ =~= prev_rest.drop_first());
            assert(step == spec_step(prev_rest[0], interval));
        }
        plan.push(step);
        if is_finish {
            stopped = true;
            proof {
                assert(driver_plan(prev_rest, interval) =~= seq![step]);
                assert(prev_plan + seq![step] =~= plan@);
            }
        } else {
            proof {
                assert(driver_plan(prev_rest, interval) == seq![step] + driver_plan(
                    rest@,
                    interval,
                ));
                assert(prev_plan + (seq![step] + driver_plan(rest@, interval)) =~= plan@
                    + driver_plan(rest@, interval));
            }
        }
    }
    proof {
        if !stopped {
            assert(driver_plan(rest@, interval) =~= Seq::<LoopStep>::empty());
            assert(plan@ + Seq::<LoopStep>::empty() =~= plan@);
        }
    }
    plan
}

/// How a plan relates, step by step, to the outcomes that produced it:
/// each planned step is the decision rule applied to the outcome at the
/// same position, only the last step can finish the run, and the plan
/// stops short of the outcomes only by finishing.
pub proof fn lemma_plan_steps(outcomes: Seq<Result<ServerStatus, FetchError>>, interval: u64)
    ensures
        driver_plan(outcomes, interval).len() <= outcomes.len(),
        forall|i: int|
            0 <= i < driver_plan(outcomes, interval).len() ==> driver_plan(outcomes, interval)[i]
                == spec_step(outcomes[i], interval),
        forall|i: int|
            0 <= i < driver_plan(outcomes, interval).len() - 1 ==> !(driver_plan(
                outcomes,
                interval,
            )[i] is Finish),
        driver_plan(outcomes, interval).len() < outcomes.len() ==> driver_plan(
            outcomes,
            interval,
        ).len() > 0 && driver_plan(outcomes, interval).last() is Finish,
    decreases outcomes.len(),
{
    if outcomes.len() > 0 {
        let step = spec_step(outcomes[0], interval);
        if !(step is Finish) {
            lemma_plan_steps(outcomes.drop_first(), interval);
            let tail = driver_plan(outcomes.drop_first(), interval);
            assert forall|i: int|
                0 <= i < driver_plan(outcomes, interval).len() implies driver_plan(
                outcomes,
                interval,
            )[i] == spec_step(outcomes[i], interval) by {
                if i > 0 {
                    assert(driver_plan(outcomes, interval)[i] == tail[i - 1]);
                    assert(outcomes.drop_first()[i - 1] == outcomes[i]);
                }
            }
            assert forall|i: int|
                0 <= i < driver_plan(outcomes, interval).len() - 1 implies !(driver_plan(
                outcomes,
                interval,
            )[i] is Finish) by {
                if i > 0 {
                    assert(driver_plan(outcomes, interval)[i] == tail[i - 1]);
                }
            }
        }
    }
}

/// Law: every waiting step of a plan sleeps exactly the configured
/// interval, whatever the outcomes were.
pub proof fn lemma_waits_use_interval(
    outcomes: Seq<Result<ServerStatus, FetchError>>,
    interval: u64,
)
    ensures
        forall|i: int|
            0 <= i < driver_plan(outcomes, interval).len() ==> ((#[trigger] driver_plan(
                outcomes,
                interval,
            )[i]) matches LoopStep::WaitError(e, secs) ==> secs == interval) && (driver_plan(
                outcomes,
                interval,
            )[i] matches LoopStep::WaitMaintenance(secs) ==> secs == interval),
{
    lemma_plan_steps(outcomes, interval);
    assert forall|i: int| 0 <= i < driver_plan(outcomes, interval).len() implies ((#[trigger] driver_plan(
        outcomes,
        interval,
    )[i]) matches LoopStep::WaitError(e, secs) ==> secs == interval) && (driver_plan(
        outcomes,
        interval,
    )[i] matches LoopStep::WaitMaintenance(secs) ==> secs == interval) by {
        assert(driver_plan(outcomes, interval)[i] == spec_step(outcomes[i], interval));
    }
}

/// Law: the notifier fires at most once per run, and only for an outcome
/// that is a success other than maintenance; in particular, outcomes that
/// are all maintenance never notify.
pub proof fn lemma_notify_once(outcomes: Seq<Result<ServerStatus, FetchError>>, interval: u64)
    ensures
        forall|i: int, j: int|
            0 <= i < driver_plan(outcomes, interval).len() && 0 <= j < driver_plan(
                outcomes,
                interval,
            ).len() && driver_plan(outcomes, interval)[i] is Finish && driver_plan(
                outcomes,
                interval,
            )[j] is Finish ==> i == j,
        forall|i: int, s: ServerStatus|
            0 <= i < driver_plan(outcomes, interval).len() && driver_plan(outcomes, interval)[i]
                == LoopStep::Finish(s) ==> outcomes[i] == Ok::<ServerStatus, FetchError>(s) && s
                != ServerStatus::Maintenance,
        (forall|k: int|
            0 <= k < outcomes.len() ==> outcomes[k] == Ok::<ServerStatus, FetchError>(
                ServerStatus::Maintenance,
            )) ==> forall|i: int|
            0 <= i < driver_plan(outcomes, interval).len() ==> !(driver_plan(
                outcomes,
                interval,
            )[i] is Finish),
{
    lemma_plan_steps(outcomes, interval);
    assert forall|i: int, s: ServerStatus|
        0 <= i < driver_plan(outcomes, interval).len() && driver_plan(outcomes, interval)[i]
            == LoopStep::Finish(s) implies outcomes[i] == Ok::<ServerStatus, FetchError>(s) && s
        != ServerStatus::Maintenance by {
        assert(driver_plan(outcomes, interval)[i] == spec_step(outcomes[i], interval));
        match outcomes[i] {
            Err(_) => {
                assert(false);
            },
            Ok(st) => {
                if st == ServerStatus::Maintenance {
                    assert(false);
                }
            },
        }
    }
}

} // verus!

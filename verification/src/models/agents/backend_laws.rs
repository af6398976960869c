use crate::helpers::backend::{probe_address, PROBE_TIMEOUT_SECONDS};
use crate::models::agents::agent_backend::{BackendPhase, BackendView, MAX_BUILD_RETRIES};
use crate::models::agents_common::common_agent::AgentState;
use crate::models::agents_common::protocol::{
    ActionView, Arrival, EventView, FatalError, StepView,
};
use crate::models::general::route::{probe_targets, RouteView};
use crate::models::general::support_case::SupportCaseView;
use vstd::prelude::*;

verus! {

impl BackendView {
    /// The agent and the case after every entry of `arrivals` came in, one
    /// after the other.
    pub open spec fn after(self, case: SupportCaseView, arrivals: Seq<Arrival>) -> (
        BackendView,
        SupportCaseView,
    )
        decreases arrivals.len(),
    {
        if arrivals.len() == 0 {
            (self, case)
        } else {
            let before = self.after(case, arrivals.drop_last());
            let turn = before.0.next(before.1, arrivals.last().event, arrivals.last().now);
            (turn.agent, turn.case)
        }
    }

    /// The step that answers entry `i` of `arrivals`.
    pub open spec fn step_at(self, case: SupportCaseView, arrivals: Seq<Arrival>, i: int) -> StepView
        recommends
            0 <= i < arrivals.len(),
    {
        let before = self.after(case, arrivals.take(i));
        before.0.next(before.1, arrivals[i].event, arrivals[i].now).step
    }

    /// How many builds in a row had failed when the last entry of `arrivals`
    /// was dealt with, counted from the run itself: a build that ends in
    /// failure adds one, a build that succeeds starts again at nought, and
    /// nothing else counts.
    pub open spec fn failed_builds_in_a_row(
        self,
        case: SupportCaseView,
        arrivals: Seq<Arrival>,
    ) -> nat
        decreases arrivals.len(),
    {
        if arrivals.len() == 0 {
            self.bug_count
        } else {
            let earlier = self.failed_builds_in_a_row(case, arrivals.drop_last());
            let before = self.after(case, arrivals.drop_last());
            if before.0.phase == BackendPhase::Building {
                match arrivals.last().event {
                    EventView::Built { success, diagnostics } => if success {
                        0
                    } else {
                        earlier + 1
                    },
                    _ => earlier,
                }
            } else {
                earlier
            }
        }
    }
}

/// Every call leaves the agent as it should be: its state goes with its
/// phase, and the count of failed builds is within the bound unless the run
/// was halted.
pub proof fn lemma_next_keeps_well_formed(
    agent: BackendView,
    case: SupportCaseView,
    event: EventView,
    now: i64,
)
    requires
        agent.well_formed(),
    ensures
        agent.next(case, event, now).agent.well_formed(),
{
}

/// Every call leaves the case a continuation of what it was: the same case
/// with a trace that only grew and a time of update that did not go back, and
/// never updated before it was created.
pub proof fn lemma_next_continues_case(
    agent: BackendView,
    case: SupportCaseView,
    event: EventView,
    now: i64,
)
    ensures
        agent.next(case, event, now).case.continues(case),
        case.well_formed() ==> agent.next(case, event, now).case.well_formed(),
{
}

/// A run in two parts comes to the same as the first part followed by the
/// second.
pub proof fn lemma_after_in_two_parts(
    agent: BackendView,
    case: SupportCaseView,
    first: Seq<Arrival>,
    second: Seq<Arrival>,
)
    ensures
        agent.after(case, first + second) == agent.after(case, first).0.after(
            agent.after(case, first).1,
            second,
        ),
    decreases second.len(),
{
    if second.len() == 0 {
        assert(first + second =~= first);
    } else {
        lemma_after_in_two_parts(agent, case, first, second.drop_last());
        assert((first + second).drop_last() =~= first + second.drop_last());
        assert((first + second).last() == second.last());
    }
}

/// A completed run leaves the case a continuation of what it was: its
/// trace only grew, its time of update did not go back and is not before its
/// time of creation. The agent is left as it should be.
pub proof fn lemma_run_continues_case(
    agent: BackendView,
    case: SupportCaseView,
    arrivals: Seq<Arrival>,
)
    ensures
        agent.after(case, arrivals).1.continues(case),
        agent.after(case, arrivals).1.trace.len() >= case.trace.len(),
        case.well_formed() ==> agent.after(case, arrivals).1.well_formed(),
        agent.well_formed() ==> agent.after(case, arrivals).0.well_formed(),
    decreases arrivals.len(),
{
    if arrivals.len() > 0 {
        lemma_run_continues_case(agent, case, arrivals.drop_last());
        let before = agent.after(case, arrivals.drop_last());
        lemma_next_continues_case(before.0, before.1, arrivals.last().event, arrivals.last().now);
        if agent.well_formed() {
            lemma_next_keeps_well_formed(
                before.0,
                before.1,
                arrivals.last().event,
                arrivals.last().now,
            );
        }
    }
}

/// A halted agent stays as it is, whatever comes in, and answers every
/// event with the same halt.
pub proof fn lemma_halt_is_final(agent: BackendView, case: SupportCaseView, arrivals: Seq<Arrival>)
    requires
        agent.phase is Halted,
    ensures
        agent.after(case, arrivals) == (agent, case),
        forall|i: int|
            0 <= i < arrivals.len() ==> (#[trigger] agent.step_at(case, arrivals, i)).action
                == ActionView::Halt(agent.phase->Halted_0),
    decreases arrivals.len(),
{
    if arrivals.len() > 0 {
        lemma_halt_is_final(agent, case, arrivals.drop_last());
    }
    assert forall|i: int| 0 <= i < arrivals.len() implies (#[trigger] agent.step_at(
        case,
        arrivals,
        i,
    )).action == ActionView::Halt(agent.phase->Halted_0) by {
        lemma_halt_is_final(agent, case, arrivals.take(i));
    }
}

/// The agent's count of failed builds is the number of builds that failed
/// in a row.
pub proof fn lemma_count_follows_failed_builds(
    agent: BackendView,
    case: SupportCaseView,
    arrivals: Seq<Arrival>,
)
    ensures
        agent.after(case, arrivals).0.bug_count == agent.failed_builds_in_a_row(case, arrivals),
    decreases arrivals.len(),
{
    if arrivals.len() > 0 {
        lemma_count_follows_failed_builds(agent, case, arrivals.drop_last());
    }
}

/// The budget of repairs holds: while the run is not halted the count of
/// failed builds is within the bound, and a run in which more builds than
/// that failed in a row, at whatever point, is halted for good and never
/// reaches `Finished`, whatever comes in later.
pub proof fn lemma_failed_builds_beyond_bound_halt(
    agent: BackendView,
    case: SupportCaseView,
    arrivals: Seq<Arrival>,
    point: int,
)
    requires
        agent.well_formed(),
        0 <= point <= arrivals.len(),
        agent.failed_builds_in_a_row(case, arrivals.take(point)) > MAX_BUILD_RETRIES,
    ensures
        agent.after(case, arrivals).0.phase is Halted,
        agent.after(case, arrivals).0.common.state == AgentState::Error,
        agent.after(case, arrivals).0.common.state != AgentState::Finished,
{
    let early = arrivals.take(point);
    let late = arrivals.skip(point);
    assert(arrivals =~= early + late);
    lemma_count_follows_failed_builds(agent, case, early);
    lemma_run_continues_case(agent, case, early);
    lemma_after_in_two_parts(agent, case, early, late);
    let halted = agent.after(case, early);
    lemma_halt_is_final(halted.0, halted.1, late);
}

/// The agent is `Finished` only after a build that succeeded: whatever
/// came in, an agent that shows `Finished` has no failed build to its count
/// and holds no diagnostics, and no service is left running.
pub proof fn lemma_finished_only_after_successful_build(
    agent: BackendView,
    case: SupportCaseView,
    arrivals: Seq<Arrival>,
)
    requires
        agent.well_formed(),
    ensures
        ({
            let end = agent.after(case, arrivals).0;
            end.common.state == AgentState::Finished ==> {
                &&& end.phase == BackendPhase::Finished
                &&& end.bug_count == 0
                &&& end.bug_errors is None
                &&& !end.phase.server_may_run()
            }
        }),
{
    lemma_run_continues_case(agent, case, arrivals);
}

/// The same of a run from the beginning.
pub proof fn lemma_fresh_run_finishes_only_after_successful_build(
    case: SupportCaseView,
    arrivals: Seq<Arrival>,
)
    ensures
        ({
            let end = BackendView::fresh().after(case, arrivals).0;
            end.common.state == AgentState::Finished ==> {
                &&& end.phase == BackendPhase::Finished
                &&& end.bug_count == 0
                &&& end.bug_errors is None
            }
        }),
{
    lemma_finished_only_after_successful_build(BackendView::fresh(), case, arrivals);
}

/// While the run is not halted, no more builds failed in a row than may be
/// repaired.
pub proof fn lemma_retry_counter_within_bound(
    agent: BackendView,
    case: SupportCaseView,
    arrivals: Seq<Arrival>,
)
    requires
        agent.well_formed(),
    ensures
        agent.after(case, arrivals).0.bug_count <= MAX_BUILD_RETRIES + 1,
        !(agent.after(case, arrivals).0.phase is Halted) ==> agent.after(
            case,
            arrivals,
        ).0.bug_count <= MAX_BUILD_RETRIES,
{
    lemma_run_continues_case(agent, case, arrivals);
}

/// Once the service is being stopped for a failure, nothing is asked of it
/// any more: every event is answered with a halt.
pub proof fn lemma_abort_only_halts(agent: BackendView, case: SupportCaseView, arrivals: Seq<Arrival>)
    requires
        agent.phase is Aborting,
    ensures
        forall|i: int|
            0 <= i < arrivals.len() ==> (#[trigger] agent.step_at(case, arrivals, i)).action
                == ActionView::Halt(agent.phase->Aborting_0),
        arrivals.len() > 0 ==> agent.after(case, arrivals).0.phase == BackendPhase::Halted(
            agent.phase->Aborting_0,
        ),
        arrivals.len() > 0 ==> agent.after(case, arrivals).0.common.state == AgentState::Error,
{
    let reason = agent.phase->Aborting_0;
    if arrivals.len() > 0 {
        let head = arrivals.take(1);
        let tail = arrivals.skip(1);
        assert(arrivals =~= head + tail);
        assert(head.drop_last() =~= Seq::<Arrival>::empty());
        assert(agent.after(case, head.drop_last()) == (agent, case));
        let halted = agent.after(case, head);
        assert(halted.0.phase == BackendPhase::Halted(reason));
        assert(halted.0.common.state == AgentState::Error);
        lemma_after_in_two_parts(agent, case, head, tail);
        lemma_halt_is_final(halted.0, halted.1, tail);
        assert forall|i: int| 0 <= i < arrivals.len() implies (#[trigger] agent.step_at(
            case,
            arrivals,
            i,
        )).action == ActionView::Halt(reason) by {
            if i == 0 {
                assert(arrivals.take(0) =~= Seq::<Arrival>::empty());
            } else {
                let rest = tail.take(i - 1);
                assert(arrivals.take(i) =~= head + rest);
                lemma_after_in_two_parts(agent, case, head, rest);
                lemma_halt_is_final(halted.0, halted.1, rest);
            }
        }
    }
}

/// The step that answers a probe which got no answer stops the service and
/// leaves the agent on its way to a halt.
pub proof fn lemma_transport_failure_stops_service(
    agent: BackendView,
    case: SupportCaseView,
    event: EventView,
    now: i64,
)
    requires
        agent.phase == BackendPhase::Probing,
        event is Failed,
    ensures
        agent.next(case, event, now).step.action == ActionView::Terminate,
        agent.next(case, event, now).agent.phase == BackendPhase::Aborting(
            FatalError::ProbeTransport,
        ),
        agent.next(case, event, now).agent.common.state == AgentState::Error,
{
}

/// A probe that gets no answer at all ends the sweep: the step that
/// answers it stops the service, and no step after it probes anything. The
/// run ends halted, in the error state.
pub proof fn lemma_transport_failure_ends_sweep(
    agent: BackendView,
    case: SupportCaseView,
    arrivals: Seq<Arrival>,
    point: int,
)
    requires
        0 <= point < arrivals.len(),
        agent.after(case, arrivals.take(point)).0.phase == BackendPhase::Probing,
        arrivals[point].event is Failed,
    ensures
        agent.step_at(case, arrivals, point).action == ActionView::Terminate,
        forall|i: int|
            point < i < arrivals.len() ==> (#[trigger] agent.step_at(case, arrivals, i)).action
                == ActionView::Halt(FatalError::ProbeTransport),
        point + 1 < arrivals.len() ==> agent.after(case, arrivals).0.phase == BackendPhase::Halted(
            FatalError::ProbeTransport,
        ),
        !agent.after(case, arrivals).0.phase.server_may_run(),
        agent.after(case, arrivals).0.common.state == AgentState::Error,
{
    let upto = arrivals.take(point + 1);
    let late = arrivals.skip(point + 1);
    assert(arrivals =~= upto + late);
    assert(upto.drop_last() =~= arrivals.take(point));
    assert(upto.last() == arrivals[point]);
    let probing = agent.after(case, arrivals.take(point));
    lemma_transport_failure_stops_service(
        probing.0,
        probing.1,
        arrivals[point].event,
        arrivals[point].now,
    );
    let aborting = agent.after(case, upto);
    assert(aborting.0.phase == BackendPhase::Aborting(FatalError::ProbeTransport));
    assert(aborting.0.common.state == AgentState::Error);
    if late.len() == 0 {
        assert(aborting.0.after(aborting.1, late) == aborting);
    }
    lemma_after_in_two_parts(agent, case, upto, late);
    lemma_abort_only_halts(aborting.0, aborting.1, late);
    assert forall|i: int| point < i < arrivals.len() implies (#[trigger] agent.step_at(
        case,
        arrivals,
        i,
    )).action == ActionView::Halt(FatalError::ProbeTransport) by {
        let k = i - point - 1;
        assert(arrivals.take(i) =~= upto + late.take(k));
        lemma_after_in_two_parts(agent, case, upto, late.take(k));
        assert(late[k] == arrivals[i]);
        assert(aborting.0.step_at(aborting.1, late, k).action == ActionView::Halt(
            FatalError::ProbeTransport,
        ));
    }
}

/// After one more entry the run stands where the step for that entry
/// leaves it.
pub proof fn lemma_after_one_more(
    agent: BackendView,
    case: SupportCaseView,
    arrivals: Seq<Arrival>,
    point: int,
)
    requires
        0 <= point < arrivals.len(),
    ensures
        ({
            let before = agent.after(case, arrivals.take(point));
            let turn = before.0.next(before.1, arrivals[point].event, arrivals[point].now);
            &&& agent.after(case, arrivals.take(point + 1)) == (turn.agent, turn.case)
            &&& agent.step_at(case, arrivals, point) == turn.step
        }),
{
    assert(arrivals.take(point + 1).drop_last() =~= arrivals.take(point));
    assert(arrivals.take(point + 1).last() == arrivals[point]);
}

/// Whether `arrivals` is what comes in when a build succeeds and all that
/// follows goes well: the source is read, the gateway lists the routes
/// `found`, the schema is saved and decoded, the service starts and comes up,
/// each endpoint that may be probed answers with some status, and the service
/// stops when asked to.
pub open spec fn is_clean_run(arrivals: Seq<Arrival>, found: Seq<RouteView>) -> bool {
    let sweep = probe_targets(found).len() as int;
    &&& arrivals.len() == sweep + 8
    &&& arrivals[0].event matches EventView::Built { success, diagnostics } && success
    &&& arrivals[1].event is Text
    &&& arrivals[2].event is Text
    &&& arrivals[3].event is Done
    &&& arrivals[4].event == EventView::Routes(found)
    &&& arrivals[5].event is Done
    &&& arrivals[6].event is Done
    &&& forall|i: int| 7 <= i < 7 + sweep ==> (#[trigger] arrivals[i]).event is Status
    &&& arrivals[sweep + 7].event is Done
}

proof fn lemma_clean_run_reaches_sweep(
    agent: BackendView,
    case: SupportCaseView,
    arrivals: Seq<Arrival>,
    found: Seq<RouteView>,
)
    requires
        agent.phase == BackendPhase::Building,
        is_clean_run(arrivals, found),
    ensures
        agent.step_at(case, arrivals, 4).action == ActionView::Launch,
        agent.after(case, arrivals.take(6)).0.phase == BackendPhase::WarmingUp,
        agent.after(case, arrivals.take(6)).0.probe_queue == probe_targets(found),
        agent.after(case, arrivals.take(6)).0.probe_cursor == 0,
        agent.after(case, arrivals.take(6)).0.bug_count == 0,
        forall|i: int|
            0 <= i < 6 ==> !((#[trigger] agent.step_at(case, arrivals, i)).action is Probe),
{
    assert(arrivals.take(0) =~= Seq::<Arrival>::empty());
    let s0 = agent.after(case, arrivals.take(0));
    assert(s0 == (agent, case));
    lemma_after_one_more(agent, case, arrivals, 0);
    let s1 = agent.after(case, arrivals.take(1));
    assert(s1.0.phase == BackendPhase::ReadingSourceForSchema);
    assert(s1.0.bug_count == 0);
    lemma_after_one_more(agent, case, arrivals, 1);
    let s2 = agent.after(case, arrivals.take(2));
    assert(s2.0.phase == BackendPhase::ExtractingSchema);
    lemma_after_one_more(agent, case, arrivals, 2);
    let s3 = agent.after(case, arrivals.take(3));
    assert(s3.0.phase == BackendPhase::SavingSchema);
    lemma_after_one_more(agent, case, arrivals, 3);
    let s4 = agent.after(case, arrivals.take(4));
    assert(s4.0.phase == BackendPhase::DecodingSchema);
    lemma_after_one_more(agent, case, arrivals, 4);
    let s5 = agent.after(case, arrivals.take(5));
    assert(s5.0.phase == BackendPhase::Launching);
    assert(s5.0.probe_queue == probe_targets(found));
    lemma_after_one_more(agent, case, arrivals, 5);
    let s6 = agent.after(case, arrivals.take(6));
    assert(s6.0.phase == BackendPhase::WarmingUp);
}

/// What the sweep does next is decided by the queue and the cursor alone:
/// the endpoint under the cursor is probed, or, where none is left, the
/// service is stopped.
pub proof fn lemma_sweep_step(agent: BackendView, case: SupportCaseView, event: EventView, now: i64)
    requires
        agent.phase == BackendPhase::WarmingUp && event is Done || agent.phase
            == BackendPhase::Probing && event is Status,
    ensures
        ({
            let turn = agent.next(case, event, now);
            let cursor: int = if agent.phase == BackendPhase::Probing {
                agent.probe_cursor as int + 1
            } else {
                agent.probe_cursor as int
            };
            &&& turn.agent.probe_queue == agent.probe_queue
            &&& turn.agent.probe_cursor == cursor
            &&& turn.agent.bug_count == agent.bug_count
            &&& turn.agent.bug_errors == agent.bug_errors
            &&& turn.case == case
            &&& if cursor < agent.probe_queue.len() {
                &&& turn.agent.phase == BackendPhase::Probing
                &&& turn.step.action == ActionView::Probe {
                    url: probe_address(agent.probe_queue[cursor].route),
                    timeout_seconds: PROBE_TIMEOUT_SECONDS,
                }
            } else {
                &&& turn.agent.phase == BackendPhase::Stopping
                &&& turn.step.action == ActionView::Terminate
            }
        }),
{
}

proof fn lemma_clean_run_sweeps(
    agent: BackendView,
    case: SupportCaseView,
    arrivals: Seq<Arrival>,
    found: Seq<RouteView>,
    done: int,
)
    requires
        agent.phase == BackendPhase::Building,
        is_clean_run(arrivals, found),
        0 <= done <= probe_targets(found).len(),
    ensures
        ({
            let targets = probe_targets(found);
            let now = agent.after(case, arrivals.take(7 + done)).0;
            let asked = agent.step_at(case, arrivals, 6 + done).action;
            &&& now.probe_queue == targets
            &&& now.probe_cursor == done
            &&& now.bug_count == 0
            &&& if done < targets.len() {
                &&& now.phase == BackendPhase::Probing
                &&& asked == ActionView::Probe {
                    url: probe_address(targets[done].route),
                    timeout_seconds: PROBE_TIMEOUT_SECONDS,
                }
            } else {
                &&& now.phase == BackendPhase::Stopping
                &&& asked == ActionView::Terminate
            }
        }),
    decreases done,
{
    if done == 0 {
        lemma_clean_run_reaches_sweep(agent, case, arrivals, found);
    } else {
        lemma_clean_run_sweeps(agent, case, arrivals, found, done - 1);
        assert(arrivals[6 + done].event is Status);
    }
    let before = agent.after(case, arrivals.take(6 + done));
    lemma_sweep_step(before.0, before.1, arrivals[6 + done].event, arrivals[6 + done].now);
    lemma_after_one_more(agent, case, arrivals, 6 + done);
}

/// A build that succeeds, followed by a sweep in which every endpoint
/// answers, ends well: the service is started once, exactly the static `get`
/// routes are probed, in their order, the service is stopped after the last
/// of them, and the agent is `Finished` with no service left running.
pub proof fn lemma_clean_run_finishes(
    agent: BackendView,
    case: SupportCaseView,
    arrivals: Seq<Arrival>,
    found: Seq<RouteView>,
)
    requires
        agent.phase == BackendPhase::Building,
        is_clean_run(arrivals, found),
    ensures
        agent.after(case, arrivals).0.phase == BackendPhase::Finished,
        agent.after(case, arrivals).0.common.state == AgentState::Finished,
        !agent.after(case, arrivals).0.phase.server_may_run(),
        agent.after(case, arrivals).0.bug_count == 0,
        agent.step_at(case, arrivals, 4).action == ActionView::Launch,
        forall|i: int|
            0 <= i < probe_targets(found).len() ==> (#[trigger] agent.step_at(
                case,
                arrivals,
                6 + i,
            )).action == (ActionView::Probe {
                url: probe_address(probe_targets(found)[i].route),
                timeout_seconds: PROBE_TIMEOUT_SECONDS,
            }),
        agent.step_at(case, arrivals, 6 + probe_targets(found).len() as int).action
            == ActionView::Terminate,
        agent.step_at(case, arrivals, 7 + probe_targets(found).len() as int).action
            == ActionView::Complete,
{
    let sweep = probe_targets(found).len() as int;
    lemma_clean_run_reaches_sweep(agent, case, arrivals, found);
    assert forall|i: int| 0 <= i < sweep implies (#[trigger] agent.step_at(
        case,
        arrivals,
        6 + i,
    )).action == (ActionView::Probe {
        url: probe_address(probe_targets(found)[i].route),
        timeout_seconds: PROBE_TIMEOUT_SECONDS,
    }) by {
        lemma_clean_run_sweeps(agent, case, arrivals, found, i);
    }
    lemma_clean_run_sweeps(agent, case, arrivals, found, sweep);
    lemma_after_one_more(agent, case, arrivals, 7 + sweep);
    assert(arrivals.take(8 + sweep) =~= arrivals);
}

/// In such a run nothing is probed but the static `get` routes: every
/// step that asks for a probe is one of the steps of the sweep.
pub proof fn lemma_clean_run_probes_only_targets(
    agent: BackendView,
    case: SupportCaseView,
    arrivals: Seq<Arrival>,
    found: Seq<RouteView>,
    point: int,
)
    requires
        agent.phase == BackendPhase::Building,
        is_clean_run(arrivals, found),
        0 <= point < arrivals.len(),
        agent.step_at(case, arrivals, point).action is Probe,
    ensures
        6 <= point < 6 + probe_targets(found).len(),
        agent.step_at(case, arrivals, point).action == (ActionView::Probe {
            url: probe_address(probe_targets(found)[point - 6].route),
            timeout_seconds: PROBE_TIMEOUT_SECONDS,
        }),
{
    lemma_clean_run_step_kinds(agent, case, arrivals, found, point);
}

proof fn lemma_clean_run_step_kinds(
    agent: BackendView,
    case: SupportCaseView,
    arrivals: Seq<Arrival>,
    found: Seq<RouteView>,
    point: int,
)
    requires
        agent.phase == BackendPhase::Building,
        is_clean_run(arrivals, found),
        0 <= point < arrivals.len(),
    ensures
        point < 6 ==> !(agent.step_at(case, arrivals, point).action is Probe),
        6 <= point < 6 + probe_targets(found).len() ==> agent.step_at(case, arrivals, point).action
            == (ActionView::Probe {
            url: probe_address(probe_targets(found)[point - 6].route),
            timeout_seconds: PROBE_TIMEOUT_SECONDS,
        }),
        point == 6 + probe_targets(found).len() ==> agent.step_at(case, arrivals, point).action
            == ActionView::Terminate,
        point == 7 + probe_targets(found).len() ==> agent.step_at(case, arrivals, point).action
            == ActionView::Complete,
{
    let sweep = probe_targets(found).len() as int;
    if point < 6 {
        lemma_clean_run_reaches_sweep(agent, case, arrivals, found);
    } else if point <= 6 + sweep {
        lemma_clean_run_sweeps(agent, case, arrivals, found, point - 6);
    } else {
        lemma_clean_run_ends(agent, case, arrivals, found);
    }
}

proof fn lemma_clean_run_ends(
    agent: BackendView,
    case: SupportCaseView,
    arrivals: Seq<Arrival>,
    found: Seq<RouteView>,
)
    requires
        agent.phase == BackendPhase::Building,
        is_clean_run(arrivals, found),
    ensures
        agent.step_at(case, arrivals, 7 + probe_targets(found).len() as int).action
            == ActionView::Complete,
{
    let sweep = probe_targets(found).len() as int;
    lemma_clean_run_sweeps(agent, case, arrivals, found, sweep);
    lemma_after_one_more(agent, case, arrivals, 7 + sweep);
}

} // verus!

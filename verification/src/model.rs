//! The lifecycle as a transition function on mathematical values: from a
//! state and an event to the next state and the action to carry out.

use crate::error::RunErrorView;
use crate::fleet::FleetGroupView;
use crate::machine::{readiness, MachineView};
use crate::protocol::{ActionView, EventView, Phase, POLL_BACKOFF_SECS};
use crate::registry::{GroupView, TsunamiBuilderView};
use crate::transport::{endpoint_of, key_file_of};
use vstd::prelude::*;

verus! {

/// Everything that a run knows.
pub struct RunState<F, S> {
    /// The registry, in the order in which the groups were added.
    pub groups: Seq<GroupView<F>>,
    pub max_duration: int,
    pub max_polls: Option<u32>,
    pub phase: Phase,
    /// For each group launched so far, the ids that the provider assigned.
    pub launched: Seq<Seq<Seq<char>>>,
    /// For each group launched so far, its machines that were seen ready.
    pub fleet: Seq<FleetGroupView<S>>,
    /// The failure that the run will report, if there is one.
    pub outcome: Option<RunErrorView>,
}

/// The state of a run that has not begun.
pub open spec fn initial<F, S>(registry: TsunamiBuilderView<F>) -> RunState<F, S> {
    RunState {
        groups: registry.groups,
        max_duration: registry.max_duration,
        max_polls: registry.max_polls,
        phase: Phase::Idle,
        launched: Seq::empty(),
        fleet: Seq::empty(),
        outcome: None,
    }
}

/// Every launched id, group after group, in the order in which the provider gave them.
pub open spec fn all_ids(launched: Seq<Seq<Seq<char>>>) -> Seq<Seq<char>>
    decreases launched.len(),
{
    if launched.len() == 0 {
        Seq::empty()
    } else {
        all_ids(launched.drop_last()) + launched.last()
    }
}

/// The id stands at some place among the launched ones.
pub open spec fn is_launched(launched: Seq<Seq<Seq<char>>>, id: Seq<char>) -> bool {
    exists|g: int, k: int|
        0 <= g < launched.len() && 0 <= k < launched[g].len() && #[trigger] launched[g][k] == id
}

/// The id stands at place `k` of group `g`.
pub open spec fn stands_at(launched: Seq<Seq<Seq<char>>>, id: Seq<char>, g: int, k: int) -> bool {
    0 <= g < launched.len() && 0 <= k < launched[g].len() && launched[g][k] == id
}

/// The id stands at some place of group `g`.
pub open spec fn stands_in(launched: Seq<Seq<Seq<char>>>, id: Seq<char>, g: int) -> bool {
    exists|k: int| #[trigger] stands_at(launched, id, g, k)
}

/// The group in which a launched id stands.
pub open spec fn group_of(launched: Seq<Seq<Seq<char>>>, id: Seq<char>) -> int {
    choose|g: int| #[trigger] stands_in(launched, id, g)
}

/// The index from instance id to group name: it knows exactly the launched
/// ids, and gives for each the name of the group that it was launched for.
pub open spec fn index<F, S>(s: RunState<F, S>) -> Map<Seq<char>, Seq<char>> {
    Map::new(
        |id: Seq<char>| is_launched(s.launched, id),
        |id: Seq<char>| s.groups[group_of(s.launched, id)].name,
    )
}

/// The answer to a launch request is what was asked for: as many ids as
/// requested, none of them empty, none twice, none handed out before.
pub open spec fn fulfilled(launched: Seq<Seq<Seq<char>>>, number: u16, ids: Seq<Seq<char>>) -> bool {
    &&& ids.len() == number
    &&& forall|i: int| 0 <= i < ids.len() ==> (#[trigger] ids[i]).len() > 0
    &&& forall|i: int, j: int| 0 <= i < j < ids.len() ==> #[trigger] ids[i] != #[trigger] ids[j]
    &&& forall|i: int| 0 <= i < ids.len() ==> !is_launched(launched, #[trigger] ids[i])
}

/// The first group at or after `from` that has instances; the number of groups
/// if there is none.
pub open spec fn next_group(launched: Seq<Seq<Seq<char>>>, from: int) -> int
    decreases launched.len() - from,
{
    if from < 0 || from >= launched.len() {
        launched.len() as int
    } else if launched[from].len() > 0 {
        from
    } else {
        next_group(launched, from + 1)
    }
}

/// The place that follows place `machine` of group `group`; its group is the
/// number of groups if no place follows.
pub open spec fn successor(launched: Seq<Seq<Seq<char>>>, group: int, machine: int) -> (int, int) {
    if machine + 1 < launched[group].len() {
        (group, machine + 1)
    } else {
        (next_group(launched, group + 1), 0)
    }
}

pub open spec fn launch_action<F, S>(s: RunState<F, S>, group: int) -> ActionView<S> {
    ActionView::Launch {
        group: group,
        name: s.groups[group].name,
        number: s.groups[group].number,
        instance_type: s.groups[group].setup.instance_type,
        ami: s.groups[group].setup.ami,
        key_name: s.groups[group].setup.key_name,
    }
}

pub open spec fn describe_action<F, S>(s: RunState<F, S>, group: int, machine: int) -> ActionView<S> {
    ActionView::Describe { instance_id: s.launched[group][machine] }
}

/// The session goes to the machine's public address, with the key that the
/// group's template names.
pub open spec fn configure_action<F, S>(s: RunState<F, S>, group: int, machine: int) -> ActionView<S> {
    ActionView::Configure {
        group: group,
        name: s.groups[group].name,
        endpoint: endpoint_of(s.fleet[group].machines[machine].public_dns),
        key_file: key_file_of(s.groups[group].setup.key_name),
    }
}

/// Nothing changes.
pub open spec fn ignore<F, S>(s: RunState<F, S>) -> (RunState<F, S>, ActionView<S>) {
    (s, ActionView::Ignored)
}

/// The run ends at once with `error`; no teardown is requested.
pub open spec fn abort<F, S>(s: RunState<F, S>, error: RunErrorView) -> (
    RunState<F, S>,
    ActionView<S>,
) {
    (
        RunState { phase: Phase::Done, outcome: Some(error), ..s },
        ActionView::Finish { result: Err(error), warning: None },
    )
}

/// Teardown of every launched instance; the run will report `outcome`.
pub open spec fn tear_down<F, S>(s: RunState<F, S>, outcome: Option<RunErrorView>) -> (
    RunState<F, S>,
    ActionView<S>,
) {
    (
        RunState { phase: Phase::Terminating, outcome: outcome, ..s },
        ActionView::Terminate { instance_ids: all_ids(s.launched) },
    )
}

/// The fleet leaves the orchestrator and goes to the workload.
pub open spec fn hand_over<F, S>(s: RunState<F, S>) -> (RunState<F, S>, ActionView<S>) {
    (
        RunState { phase: Phase::Running, fleet: Seq::empty(), ..s },
        ActionView::Workload { fleet: s.fleet },
    )
}

/// Polling starts at the first instance; without instances the fleet is handed over.
pub open spec fn begin_polling<F, S>(s: RunState<F, S>) -> (RunState<F, S>, ActionView<S>) {
    let group = next_group(s.launched, 0);
    if group < s.launched.len() {
        (
            RunState {
                phase: Phase::AwaitingReady { group: group, machine: 0, polls: 0, sleeping: false },
                ..s
            },
            describe_action(s, group, 0),
        )
    } else {
        hand_over(s)
    }
}

/// Setup starts at the first machine; without machines the fleet is handed over.
pub open spec fn begin_configuring<F, S>(s: RunState<F, S>) -> (RunState<F, S>, ActionView<S>) {
    let group = next_group(s.launched, 0);
    if group < s.launched.len() {
        (
            RunState { phase: Phase::Configuring { group: group, machine: 0 }, ..s },
            configure_action(s, group, 0),
        )
    } else {
        hand_over(s)
    }
}

pub open spec fn on_idle<F, S>(s: RunState<F, S>, e: EventView<S>) -> (RunState<F, S>, ActionView<S>) {
    match e {
        EventView::Start => if s.groups.len() > 0 {
            (RunState { phase: Phase::Launching { group: 0 }, ..s }, launch_action(s, 0))
        } else {
            begin_polling(s)
        },
        _ => ignore(s),
    }
}

/// The state after group `group` was launched with `ids`.
pub open spec fn with_launched<F, S>(s: RunState<F, S>, group: int, ids: Seq<Seq<char>>) -> RunState<
    F,
    S,
> {
    RunState {
        launched: s.launched.push(ids),
        fleet: s.fleet.push(FleetGroupView { name: s.groups[group].name, machines: Seq::empty() }),
        ..s
    }
}

pub open spec fn on_launching<F, S>(s: RunState<F, S>, group: int, e: EventView<S>) -> (
    RunState<F, S>,
    ActionView<S>,
) {
    match e {
        EventView::Launched { instance_ids } => if fulfilled(
            s.launched,
            s.groups[group].number,
            instance_ids,
        ) {
            let t = with_launched(s, group, instance_ids);
            if group + 1 < s.groups.len() {
                (
                    RunState { phase: Phase::Launching { group: group + 1 }, ..t },
                    launch_action(t, group + 1),
                )
            } else {
                begin_polling(t)
            }
        } else {
            abort(s, RunErrorView::LaunchUnfulfilled { group: s.groups[group].name })
        },
        EventView::LaunchFailed { cause } => abort(
            s,
            RunErrorView::LaunchRejected { group: s.groups[group].name, cause: cause },
        ),
        _ => ignore(s),
    }
}

/// The state after machine `m` of group `group` was seen ready.
pub open spec fn with_machine<F, S>(s: RunState<F, S>, group: int, m: MachineView<S>) -> RunState<
    F,
    S,
> {
    RunState {
        fleet: s.fleet.update(
            group,
            FleetGroupView { machines: s.fleet[group].machines.push(m), ..s.fleet[group] },
        ),
        ..s
    }
}

/// One more answer of "not ready"; the count stops at the largest number it can hold.
pub open spec fn one_more(polls: int) -> int {
    if polls < u32::MAX {
        polls + 1
    } else {
        polls
    }
}

pub open spec fn on_awaiting<F, S>(
    s: RunState<F, S>,
    group: int,
    machine: int,
    polls: int,
    sleeping: bool,
    e: EventView<S>,
) -> (RunState<F, S>, ActionView<S>) {
    let id = s.launched[group][machine];
    match e {
        EventView::Slept => if sleeping {
            (
                RunState {
                    phase: Phase::AwaitingReady {
                        group: group,
                        machine: machine,
                        polls: polls,
                        sleeping: false,
                    },
                    ..s
                },
                describe_action(s, group, machine),
            )
        } else {
            ignore(s)
        },
        EventView::Described { instances } => if sleeping {
            ignore(s)
        } else {
            match readiness::<S>(instances) {
                Some(m) => if m.instance_id == id {
                    let t = with_machine(s, group, m);
                    let (g, k) = successor(s.launched, group, machine);
                    if g < s.launched.len() {
                        (
                            RunState {
                                phase: Phase::AwaitingReady {
                                    group: g,
                                    machine: k,
                                    polls: 0,
                                    sleeping: false,
                                },
                                ..t
                            },
                            describe_action(t, g, k),
                        )
                    } else {
                        begin_configuring(t)
                    }
                } else {
                    tear_down(s, Some(RunErrorView::InvariantViolation { instance_id: id }))
                },
                None => if s.max_polls is Some && one_more(polls) >= s.max_polls.unwrap() {
                    tear_down(s, Some(RunErrorView::ReadinessTimeout { instance_id: id }))
                } else {
                    (
                        RunState {
                            phase: Phase::AwaitingReady {
                                group: group,
                                machine: machine,
                                polls: one_more(polls),
                                sleeping: true,
                            },
                            ..s
                        },
                        ActionView::Sleep { seconds: POLL_BACKOFF_SECS },
                    )
                },
            }
        },
        EventView::DescribeFailed { cause } => if sleeping {
            ignore(s)
        } else {
            tear_down(s, Some(RunErrorView::ReadinessQuery { instance_id: id, cause: cause }))
        },
        _ => ignore(s),
    }
}

/// The state after `session` was attached to machine `machine` of group `group`.
pub open spec fn with_session<F, S>(s: RunState<F, S>, group: int, machine: int, session: S) -> RunState<
    F,
    S,
> {
    RunState {
        fleet: s.fleet.update(
            group,
            FleetGroupView {
                machines: s.fleet[group].machines.update(
                    machine,
                    MachineView { ssh: Some(session), ..s.fleet[group].machines[machine] },
                ),
                ..s.fleet[group]
            },
        ),
        ..s
    }
}

pub open spec fn on_configuring<F, S>(s: RunState<F, S>, group: int, machine: int, e: EventView<S>) -> (
    RunState<F, S>,
    ActionView<S>,
) {
    let name = s.groups[group].name;
    let address = s.fleet[group].machines[machine].public_dns;
    match e {
        EventView::Configured { session } => {
            let t = with_session(s, group, machine, session);
            let (g, k) = successor(s.launched, group, machine);
            if g < s.launched.len() {
                (
                    RunState { phase: Phase::Configuring { group: g, machine: k }, ..t },
                    configure_action(t, g, k),
                )
            } else {
                hand_over(t)
            }
        },
        EventView::ConnectFailed { cause } => tear_down(
            s,
            Some(RunErrorView::Connect { group: name, address: address, cause: cause }),
        ),
        EventView::SetupFailed { cause } => tear_down(
            s,
            Some(RunErrorView::Setup { group: name, address: address, cause: cause }),
        ),
        _ => ignore(s),
    }
}

pub open spec fn on_running<F, S>(s: RunState<F, S>, e: EventView<S>) -> (
    RunState<F, S>,
    ActionView<S>,
) {
    match e {
        EventView::WorkloadSucceeded => tear_down(s, None),
        EventView::WorkloadFailed { cause } => tear_down(
            s,
            Some(RunErrorView::Workload { cause: cause }),
        ),
        _ => ignore(s),
    }
}

/// What the run reports in the end.
pub open spec fn report(outcome: Option<RunErrorView>) -> Result<(), RunErrorView> {
    match outcome {
        Some(error) => Err(error),
        None => Ok(()),
    }
}

pub open spec fn on_terminating<F, S>(s: RunState<F, S>, e: EventView<S>) -> (
    RunState<F, S>,
    ActionView<S>,
) {
    match e {
        EventView::Terminated => (
            RunState { phase: Phase::Done, ..s },
            ActionView::Finish { result: report(s.outcome), warning: None },
        ),
        EventView::TerminateFailed { cause } => (
            RunState { phase: Phase::Done, ..s },
            ActionView::Finish { result: report(s.outcome), warning: Some(cause) },
        ),
        _ => ignore(s),
    }
}

/// The transition function of the lifecycle.
pub open spec fn next<F, S>(s: RunState<F, S>, e: EventView<S>) -> (RunState<F, S>, ActionView<S>) {
    match s.phase {
        Phase::Idle => on_idle(s, e),
        Phase::Launching { group } => on_launching(s, group, e),
        Phase::AwaitingReady { group, machine, polls, sleeping } => on_awaiting(
            s,
            group,
            machine,
            polls,
            sleeping,
            e,
        ),
        Phase::Configuring { group, machine } => on_configuring(s, group, machine, e),
        Phase::Running => on_running(s, e),
        Phase::Terminating => on_terminating(s, e),
        Phase::Done => ignore(s),
    }
}

} // verus!

//! What the lifecycle guarantees, proved of every state that a run can reach.

use crate::error::RunErrorView;
use crate::fleet::{as_map, named_at, FleetGroupView};
use crate::model::{
    all_ids, configure_action, index, is_launched, next, stands_at, RunState,
};
use crate::protocol::{ActionView, EventView, Phase};
use crate::reachable::{
    counts_met, ids_sound, inv, launch_failed, lemma_index_at, lemma_next_group,
    lemma_next_keeps_inv,
};
use crate::registry::{has_group, GroupView};
use vstd::prelude::*;

verus! {

/// The number of instances that the groups ask for, all together.
pub open spec fn requested<F>(groups: Seq<GroupView<F>>) -> int
    decreases groups.len(),
{
    if groups.len() == 0 {
        0
    } else {
        requested(groups.drop_last()) + groups.last().number
    }
}

/// The fleet that is in being after a transition: the one handed to the
/// workload if the transition hands it over, else the one that the state keeps.
pub open spec fn fleet_after<F, S>(s: RunState<F, S>, e: EventView<S>) -> Seq<FleetGroupView<S>> {
    match next(s, e).1 {
        ActionView::Workload { fleet } => fleet,
        _ => next(s, e).0.fleet,
    }
}

/// The state after a sequence of events.
pub open spec fn run_from<F, S>(s: RunState<F, S>, events: Seq<EventView<S>>) -> RunState<F, S>
    decreases events.len(),
{
    if events.len() == 0 {
        s
    } else {
        run_from(next(s, events.first()).0, events.drop_first())
    }
}

/// The number of termination requests that a sequence of events draws.
pub open spec fn terminations_from<F, S>(s: RunState<F, S>, events: Seq<EventView<S>>) -> nat
    decreases events.len(),
{
    if events.len() == 0 {
        0
    } else {
        let rest = terminations_from(next(s, events.first()).0, events.drop_first());
        if next(s, events.first()).1 is Terminate {
            1 + rest
        } else {
            rest
        }
    }
}

proof fn lemma_ids_sound_prefix(launched: Seq<Seq<Seq<char>>>)
    requires
        ids_sound(launched),
        launched.len() > 0,
    ensures
        ids_sound(launched.drop_last()),
{
    let shorter = launched.drop_last();
    assert forall|g: int, k: int, h: int, j: int|
        0 <= g < shorter.len() && 0 <= k < shorter[g].len() && 0 <= h < shorter.len() && 0 <= j
            < shorter[h].len() && #[trigger] shorter[g][k] == #[trigger] shorter[h][j] implies g
        == h && k == j by {
        assert(launched[g][k] == launched[h][j]);
    }
    assert forall|g: int, k: int| 0 <= g < shorter.len() && 0 <= k < shorter[g].len() implies (
    #[trigger] shorter[g][k]).len() > 0 by {
        assert(launched[g][k].len() > 0);
    }
}

/// The flat list holds exactly the ids that stand at some place.
pub proof fn lemma_all_ids_contains(launched: Seq<Seq<Seq<char>>>, id: Seq<char>)
    ensures
        all_ids(launched).contains(id) <==> is_launched(launched, id),
    decreases launched.len(),
{
    if launched.len() > 0 {
        let shorter = launched.drop_last();
        let last = launched.last();
        lemma_all_ids_contains(shorter, id);
        if all_ids(launched).contains(id) {
            let i = choose|i: int| 0 <= i < all_ids(launched).len() && all_ids(launched)[i] == id;
            if i < all_ids(shorter).len() {
                assert(all_ids(shorter)[i] == id);
                assert(all_ids(shorter).contains(id));
                let (g, k) = choose|g: int, k: int|
                    0 <= g < shorter.len() && 0 <= k < shorter[g].len() && #[trigger] shorter[g][k]
                        == id;
                assert(launched[g][k] == id);
            } else {
                let k = i - all_ids(shorter).len();
                assert(launched[launched.len() - 1][k] == id);
            }
        }
        if is_launched(launched, id) {
            let (g, k) = choose|g: int, k: int|
                0 <= g < launched.len() && 0 <= k < launched[g].len() && #[trigger] launched[g][k]
                    == id;
            if g < shorter.len() {
                assert(shorter[g][k] == id);
                assert(is_launched(shorter, id));
                let i = choose|i: int| 0 <= i < all_ids(shorter).len() && all_ids(shorter)[i] == id;
                assert(all_ids(launched)[i] == id);
            } else {
                assert(all_ids(launched)[all_ids(shorter).len() + k] == id);
            }
        }
    } else {
        assert(all_ids(launched) =~= Seq::empty());
    }
}

/// The flat list names no id twice.
pub proof fn lemma_all_ids_distinct(launched: Seq<Seq<Seq<char>>>)
    requires
        ids_sound(launched),
    ensures
        all_ids(launched).no_duplicates(),
    decreases launched.len(),
{
    if launched.len() > 0 {
        let shorter = launched.drop_last();
        let last = launched.last();
        let n = launched.len() - 1;
        lemma_ids_sound_prefix(launched);
        lemma_all_ids_distinct(shorter);
        assert(last.no_duplicates()) by {
            assert forall|i: int, j: int| 0 <= i < last.len() && 0 <= j < last.len() && i != j implies last[i]
                != last[j] by {
                if launched[n][i] == launched[n][j] {
                    assert(i == j);
                }
            }
        }
        assert forall|i: int, j: int| 0 <= i < all_ids(shorter).len() && 0 <= j < last.len() implies all_ids(
            shorter,
        )[i] != last[j] by {
            let id = all_ids(shorter)[i];
            if id == last[j] {
                assert(all_ids(shorter).contains(id));
                lemma_all_ids_contains(shorter, id);
                let (g, k) = choose|g: int, k: int|
                    0 <= g < shorter.len() && 0 <= k < shorter[g].len() && #[trigger] shorter[g][k]
                        == id;
                assert(launched[g][k] == launched[n][j]);
            }
        }
        vstd::seq_lib::lemma_no_dup_in_concat(all_ids(shorter), last);
    }
}

/// The flat list is as long as the groups' counts add up.
pub proof fn lemma_all_ids_len<F>(groups: Seq<GroupView<F>>, launched: Seq<Seq<Seq<char>>>)
    requires
        counts_met(groups, launched),
        launched.len() == groups.len(),
    ensures
        all_ids(launched).len() == requested(groups),
    decreases launched.len(),
{
    if launched.len() > 0 {
        assert(launched.last().len() == groups.last().number);
        assert(counts_met(groups.drop_last(), launched.drop_last())) by {
            assert forall|g: int| 0 <= g < launched.drop_last().len() implies (
            #[trigger] launched.drop_last()[g]).len() == groups.drop_last()[g].number by {
                assert(launched[g].len() == groups[g].number);
            }
        }
        lemma_all_ids_len(groups.drop_last(), launched.drop_last());
    }
}

/// A successful run hands the workload a fleet that has the registry's
/// groups, by name and in order, and in each group as many machines as the
/// group asked for; every machine has an id that is not empty and that no
/// other machine of the fleet has.
pub proof fn law_fleet_matches_registry<F, S>(s: RunState<F, S>, e: EventView<S>)
    requires
        inv(s),
        next(s, e).1 is Workload,
    ensures
        ({
            let fleet = next(s, e).1->fleet;
            &&& fleet.len() == s.groups.len()
            &&& forall|g: int|
                0 <= g < fleet.len() ==> (#[trigger] fleet[g]).name == s.groups[g].name
                    && fleet[g].machines.len() == s.groups[g].number
            &&& forall|g: int, k: int|
                0 <= g < fleet.len() && 0 <= k < fleet[g].machines.len() ==> (
                #[trigger] fleet[g].machines[k]).instance_id.len() > 0
            &&& forall|g: int, k: int, h: int, j: int|
                0 <= g < fleet.len() && 0 <= k < fleet[g].machines.len() && 0 <= h < fleet.len()
                    && 0 <= j < fleet[h].machines.len() && (#[trigger] fleet[g].machines[k]).instance_id
                    == (#[trigger] fleet[h].machines[j]).instance_id ==> g == h && k == j
            &&& forall|name: Seq<char>|
                as_map(fleet).dom().contains(name) <==> has_group(s.groups, name)
        }),
{
    let fleet = next(s, e).1->fleet;
    let launched = next(s, e).0.launched;
    lemma_handed_fleet(s, e);
    assert forall|g: int, k: int|
        0 <= g < fleet.len() && 0 <= k < fleet[g].machines.len() implies (
    #[trigger] fleet[g].machines[k]).instance_id.len() > 0 by {
        assert(launched[g][k].len() > 0);
    }
    assert forall|g: int, k: int, h: int, j: int|
        0 <= g < fleet.len() && 0 <= k < fleet[g].machines.len() && 0 <= h < fleet.len() && 0 <= j
            < fleet[h].machines.len() && (#[trigger] fleet[g].machines[k]).instance_id == (
        #[trigger] fleet[h].machines[j]).instance_id implies g == h && k == j by {
        assert(launched[g][k] == launched[h][j]);
    }
    assert forall|name: Seq<char>| as_map(fleet).dom().contains(name) <==> has_group(
        s.groups,
        name,
    ) by {
        if as_map(fleet).dom().contains(name) {
            let i = choose|i: int| named_at(fleet, name, i);
            assert(s.groups[i].name == name);
        }
        if has_group(s.groups, name) {
            let i = choose|i: int| 0 <= i < s.groups.len() && (#[trigger] s.groups[i]).name == name;
            assert(fleet[i].name == name);
            assert(named_at(fleet, name, i)) by {
                assert forall|j: int| 0 <= j < i implies (#[trigger] fleet[j]).name != name by {
                    assert(s.groups[j].name != s.groups[i].name);
                }
            }
        }
    }
}

/// The fleet that is handed over is complete: group by group and place by
/// place it holds the machine of the instance launched there, with a session.
proof fn lemma_handed_fleet<F, S>(s: RunState<F, S>, e: EventView<S>)
    requires
        inv(s),
        next(s, e).1 is Workload,
    ensures
        ({
            let fleet = next(s, e).1->fleet;
            let t = next(s, e).0;
            &&& t.launched.len() == s.groups.len()
            &&& t.groups == s.groups
            &&& ids_sound(t.launched)
            &&& counts_met(t.groups, t.launched)
            &&& fleet.len() == t.launched.len()
            &&& forall|g: int|
                0 <= g < fleet.len() ==> (#[trigger] fleet[g]).name == s.groups[g].name
                    && fleet[g].machines.len() == t.launched[g].len()
            &&& forall|g: int, k: int|
                0 <= g < fleet.len() && 0 <= k < fleet[g].machines.len() ==> (
                #[trigger] fleet[g].machines[k]).instance_id == t.launched[g][k]
                    && fleet[g].machines[k].ssh is Some
        }),
{
    lemma_next_keeps_inv(s, e);
    let t = next(s, e).0;
    match s.phase {
        Phase::Idle => {
            lemma_next_group(s.launched, 0);
        },
        Phase::Launching { group } => {
            lemma_next_group(t.launched, 0);
            let fleet = next(s, e).1->fleet;
            assert forall|g: int| 0 <= g < fleet.len() implies (#[trigger] fleet[g]).name
                == s.groups[g].name && fleet[g].machines.len() == t.launched[g].len() by {
                assert(t.launched[g].len() == 0);
            }
        },
        Phase::AwaitingReady { group, machine, polls, sleeping } => {
            lemma_next_group(s.launched, group + 1);
            lemma_next_group(s.launched, 0);
        },
        Phase::Configuring { group, machine } => {
            lemma_next_group(s.launched, group + 1);
        },
        _ => {},
    }
}

/// The index is a function on exactly the launched ids: each launched id
/// stands at one place only and maps to the name of the group it was launched
/// for; and every machine that the fleet holds, or that is handed to the
/// workload, has an id that the index maps to the machine's own group.
pub proof fn law_index_covers_launched<F, S>(s: RunState<F, S>, e: EventView<S>)
    requires
        inv(s),
    ensures
        forall|id: Seq<char>, g: int, k: int, h: int, j: int|
            stands_at(s.launched, id, g, k) && stands_at(s.launched, id, h, j) ==> g == h && k == j,
        forall|g: int, k: int|
            0 <= g < s.launched.len() && 0 <= k < s.launched[g].len() ==> index(s).dom().contains(
                #[trigger] s.launched[g][k],
            ) && index(s)[s.launched[g][k]] == s.groups[g].name,
        forall|g: int, k: int|
            0 <= g < s.fleet.len() && 0 <= k < s.fleet[g].machines.len() ==> index(s).dom().contains(
                (#[trigger] s.fleet[g].machines[k]).instance_id,
            ) && index(s)[s.fleet[g].machines[k].instance_id] == s.fleet[g].name,
        next(s, e).1 matches ActionView::Workload { fleet } ==> forall|g: int, k: int|
            0 <= g < fleet.len() && 0 <= k < fleet[g].machines.len() ==> index(
                next(s, e).0,
            ).dom().contains((#[trigger] fleet[g].machines[k]).instance_id) && index(
                next(s, e).0,
            )[fleet[g].machines[k].instance_id] == fleet[g].name,
{
    assert forall|id: Seq<char>, g: int, k: int, h: int, j: int|
        stands_at(s.launched, id, g, k) && stands_at(s.launched, id, h, j) implies g == h && k
        == j by {
        assert(s.launched[g][k] == s.launched[h][j]);
    }
    assert forall|g: int, k: int|
        0 <= g < s.launched.len() && 0 <= k < s.launched[g].len() implies index(s).dom().contains(
        #[trigger] s.launched[g][k],
    ) && index(s)[s.launched[g][k]] == s.groups[g].name by {
        lemma_index_at(s, g, k);
    }
    assert forall|g: int, k: int|
        0 <= g < s.fleet.len() && 0 <= k < s.fleet[g].machines.len() implies index(s).dom().contains(
        (#[trigger] s.fleet[g].machines[k]).instance_id,
    ) && index(s)[s.fleet[g].machines[k].instance_id] == s.fleet[g].name by {
        lemma_index_at(s, g, k);
    }
    if next(s, e).1 is Workload {
        let fleet = next(s, e).1->fleet;
        let t = next(s, e).0;
        lemma_handed_fleet(s, e);
        assert forall|g: int, k: int|
            0 <= g < fleet.len() && 0 <= k < fleet[g].machines.len() implies index(t).dom().contains(
            (#[trigger] fleet[g].machines[k]).instance_id,
        ) && index(t)[fleet[g].machines[k].instance_id] == fleet[g].name by {
            lemma_index_at(t, g, k);
        }
    }
}

/// A termination request names exactly the launched ids, each once, however
/// many of them became ready: as many ids as the groups asked for.
pub proof fn law_termination_targets_launched<F, S>(s: RunState<F, S>, e: EventView<S>)
    requires
        inv(s),
        next(s, e).1 is Terminate,
    ensures
        ({
            let ids = next(s, e).1->instance_ids;
            &&& ids == all_ids(s.launched)
            &&& ids.no_duplicates()
            &&& forall|id: Seq<char>| ids.contains(id) <==> index(s).dom().contains(id)
            &&& ids.len() == requested(s.groups)
        }),
{
    let ids = next(s, e).1->instance_ids;
    lemma_all_ids_distinct(s.launched);
    lemma_all_ids_len(s.groups, s.launched);
    assert forall|id: Seq<char>| ids.contains(id) <==> index(s).dom().contains(id) by {
        lemma_all_ids_contains(s.launched, id);
    }
}

/// No machine has a session before setup begins.
pub proof fn law_no_session_before_setup<F, S>(s: RunState<F, S>)
    requires
        inv(s),
        s.phase is Idle || s.phase is Launching || s.phase is AwaitingReady,
    ensures
        forall|g: int, k: int|
            0 <= g < s.fleet.len() && 0 <= k < s.fleet[g].machines.len() ==> (
            #[trigger] s.fleet[g].machines[k]).ssh is None,
{
}

/// A successful setup attaches its session to the machine that was being
/// configured and changes no other machine.
pub proof fn law_setup_attaches_session<F, S>(s: RunState<F, S>, session: S)
    requires
        inv(s),
        s.phase is Configuring,
    ensures
        ({
            let g = s.phase->Configuring_group;
            let k = s.phase->Configuring_machine;
            let fleet = fleet_after(s, EventView::Configured { session: session });
            &&& fleet.len() == s.fleet.len()
            &&& forall|h: int|
                0 <= h < fleet.len() ==> (#[trigger] fleet[h]).machines.len()
                    == s.fleet[h].machines.len()
            &&& fleet[g].machines[k] == (crate::machine::MachineView { ssh: Some(session), ..s.fleet[g].machines[k] })
            &&& forall|h: int, j: int|
                0 <= h < fleet.len() && 0 <= j < fleet[h].machines.len() && !(h == g && j == k)
                    ==> #[trigger] fleet[h].machines[j] == s.fleet[h].machines[j]
        }),
{
    let g = s.phase->Configuring_group;
    lemma_next_group(s.launched, g + 1);
}

/// Every machine that reaches the workload has a session.
pub proof fn law_workload_sees_sessions<F, S>(s: RunState<F, S>, e: EventView<S>)
    requires
        inv(s),
        next(s, e).1 is Workload,
    ensures
        ({
            let fleet = next(s, e).1->fleet;
            forall|g: int, k: int|
                0 <= g < fleet.len() && 0 <= k < fleet[g].machines.len() ==> (
                #[trigger] fleet[g].machines[k]).ssh is Some
        }),
{
    lemma_handed_fleet(s, e);
}

/// When the workload fails, teardown of every launched instance is requested
/// at once, and the run then reports the workload's failure whether or not
/// the teardown goes through.
pub proof fn law_teardown_after_failed_workload<F, S>(s: RunState<F, S>, cause: Seq<char>)
    requires
        inv(s),
        s.phase is Running,
    ensures
        ({
            let failed = next(s, EventView::WorkloadFailed { cause: cause });
            let error = RunErrorView::Workload { cause: cause };
            &&& failed.1 == ActionView::<S>::Terminate { instance_ids: all_ids(s.launched) }
            &&& failed.0.phase is Terminating
            &&& next(failed.0, EventView::Terminated).1 == ActionView::<S>::Finish {
                result: Err(error),
                warning: None,
            }
            &&& forall|why: Seq<char>|
                next(failed.0, EventView::TerminateFailed { cause: why }).1 == ActionView::<
                    S,
                >::Finish { result: Err(error), warning: Some(why) }
        }),
{
}

/// Teardown is requested at most once in a run, whatever the events. A run
/// that has ended has requested it exactly once, unless a launch failed: then
/// the run ended without a request.
pub proof fn law_teardown_exactly_once<F, S>(s: RunState<F, S>, events: Seq<EventView<S>>)
    requires
        inv(s),
    ensures
        terminations_from(s, events) <= 1,
        s.phase is Terminating || s.phase is Done ==> terminations_from(s, events) == 0,
        s.phase is Terminating ==> run_from(s, events).outcome == s.outcome,
        s.phase is Done ==> run_from(s, events) == s,
        run_from(s, events).phase is Done && !(s.phase is Terminating || s.phase is Done) ==> (
        terminations_from(s, events) == 1 <==> !launch_failed(run_from(s, events).outcome)),
        run_from(s, events).phase is Terminating ==> !launch_failed(run_from(s, events).outcome),
    decreases events.len(),
{
    if events.len() > 0 {
        let e = events.first();
        let t = next(s, e).0;
        lemma_next_keeps_inv(s, e);
        law_teardown_exactly_once(t, events.drop_first());
    }
}

/// The run has come to, or gone past, the setup of the machine at place `k`
/// of group `g`.
pub open spec fn setup_passed<F, S>(s: RunState<F, S>, g: int, k: int) -> bool {
    match s.phase {
        Phase::Configuring { group, machine } => g < group || (g == group && k <= machine),
        Phase::Running => true,
        Phase::Terminating => true,
        Phase::Done => true,
        _ => false,
    }
}

/// The number of times that a sequence of events makes the run ask for the
/// setup of the machine at place `k` of group `g`.
pub open spec fn setups_from<F, S>(
    s: RunState<F, S>,
    events: Seq<EventView<S>>,
    g: int,
    k: int,
) -> nat
    decreases events.len(),
{
    if events.len() == 0 {
        0
    } else {
        let t = next(s, events.first());
        let rest = setups_from(t.0, events.drop_first(), g, k);
        if t.1 is Configure && t.0.phase == (Phase::Configuring { group: g, machine: k }) {
            1 + rest
        } else {
            rest
        }
    }
}

/// Setup is asked for a machine that is in the fleet, at the place at which
/// its instance was launched, and that has no session yet; the request names
/// the machine's group, its public address and the key of the group's template.
pub proof fn law_setup_targets_ready_machine<F, S>(s: RunState<F, S>, e: EventView<S>)
    requires
        inv(s),
        next(s, e).1 is Configure,
    ensures
        ({
            let t = next(s, e).0;
            let g = t.phase->Configuring_group;
            let k = t.phase->Configuring_machine;
            &&& t.phase is Configuring
            &&& 0 <= g < t.fleet.len()
            &&& 0 <= k < t.fleet[g].machines.len()
            &&& t.fleet[g].machines[k].ssh is None
            &&& t.fleet[g].machines[k].instance_id == t.launched[g][k]
            &&& next(s, e).1 == configure_action(t, g, k)
        }),
{
    lemma_next_keeps_inv(s, e);
    match s.phase {
        Phase::AwaitingReady { group, machine, polls, sleeping } => {
            lemma_next_group(s.launched, group + 1);
            lemma_next_group(s.launched, 0);
        },
        Phase::Configuring { group, machine } => {
            lemma_next_group(s.launched, group + 1);
        },
        _ => {},
    }
}

/// Setup is asked for each machine at most once, whatever the events, and
/// never again once the run has come to the machine or has handed the fleet
/// to the workload.
pub proof fn law_setup_at_most_once<F, S>(
    s: RunState<F, S>,
    events: Seq<EventView<S>>,
    g: int,
    k: int,
)
    requires
        inv(s),
    ensures
        setups_from(s, events, g, k) <= 1,
        setup_passed(s, g, k) ==> setups_from(s, events, g, k) == 0,
    decreases events.len(),
{
    if events.len() > 0 {
        let e = events.first();
        let t = next(s, e).0;
        lemma_next_keeps_inv(s, e);
        law_setup_at_most_once(t, events.drop_first(), g, k);
        match s.phase {
            Phase::Configuring { group, machine } => {
                lemma_next_group(s.launched, group + 1);
            },
            _ => {},
        }
    }
}

/// The number of times that a sequence of events hands the fleet to the workload.
pub open spec fn workloads_from<F, S>(s: RunState<F, S>, events: Seq<EventView<S>>) -> nat
    decreases events.len(),
{
    if events.len() == 0 {
        0
    } else {
        let rest = workloads_from(next(s, events.first()).0, events.drop_first());
        if next(s, events.first()).1 is Workload {
            1 + rest
        } else {
            rest
        }
    }
}

/// The fleet is handed to the workload at most once in a run, whatever the
/// events, and never after it was handed over or teardown was requested. A
/// run that ends in success has handed it over exactly once.
pub proof fn law_workload_runs_once<F, S>(s: RunState<F, S>, events: Seq<EventView<S>>)
    requires
        inv(s),
    ensures
        workloads_from(s, events) <= 1,
        s.phase is Running || s.phase is Terminating || s.phase is Done ==> workloads_from(
            s,
            events,
        ) == 0,
        s.phase is Terminating || s.phase is Done ==> run_from(s, events).outcome == s.outcome,
        !(s.phase is Running || s.phase is Terminating || s.phase is Done) && run_from(
            s,
            events,
        ).phase is Done && run_from(s, events).outcome is None ==> workloads_from(s, events) == 1,
    decreases events.len(),
{
    if events.len() > 0 {
        let e = events.first();
        lemma_next_keeps_inv(s, e);
        law_workload_runs_once(next(s, e).0, events.drop_first());
    }
}

} // verus!

//! What holds of every state that a run can reach.

use crate::error::RunErrorView;
use crate::model::{
    fulfilled, group_of, index, is_launched, next, next_group, stands_at, stands_in, with_launched,
    RunState,
};
use crate::protocol::{EventView, Phase};
use crate::registry::{distinct_names, GroupView};
use vstd::prelude::*;

verus! {

/// No launched id is empty, and no id stands at two places.
pub open spec fn ids_sound(launched: Seq<Seq<Seq<char>>>) -> bool {
    &&& forall|g: int, k: int|
        0 <= g < launched.len() && 0 <= k < launched[g].len() ==> (#[trigger] launched[g][k]).len()
            > 0
    &&& forall|g: int, k: int, h: int, j: int|
        0 <= g < launched.len() && 0 <= k < launched[g].len() && 0 <= h < launched.len() && 0 <= j
            < launched[h].len() && #[trigger] launched[g][k] == #[trigger] launched[h][j] ==> g == h
            && k == j
}

/// Every group launched so far got as many ids as it asked for.
pub open spec fn counts_met<F>(groups: Seq<GroupView<F>>, launched: Seq<Seq<Seq<char>>>) -> bool {
    &&& launched.len() <= groups.len()
    &&& forall|g: int| 0 <= g < launched.len() ==> (#[trigger] launched[g]).len() == groups[g].number
}

/// The fleet holds a machine for every place before place `machine` of group
/// `group`, and for no other: machine `j` of group `h` is the instance that
/// was launched as the `j`-th of group `h`.
pub open spec fn fleet_filled<F, S>(s: RunState<F, S>, group: int, machine: int) -> bool {
    &&& s.fleet.len() == s.launched.len()
    &&& forall|h: int| 0 <= h < s.fleet.len() ==> (#[trigger] s.fleet[h]).name == s.groups[h].name
    &&& forall|h: int|
        0 <= h < s.fleet.len() ==> (#[trigger] s.fleet[h]).machines.len() == (if h < group {
            s.launched[h].len() as int
        } else if h == group {
            machine
        } else {
            0
        })
    &&& forall|h: int, j: int|
        0 <= h < s.fleet.len() && 0 <= j < s.fleet[h].machines.len() ==> (
        #[trigger] s.fleet[h].machines[j]).instance_id == s.launched[h][j]
}

/// Exactly the machines before place `machine` of group `group` have a session.
pub open spec fn sessions_filled<F, S>(s: RunState<F, S>, group: int, machine: int) -> bool {
    forall|h: int, j: int|
        0 <= h < s.fleet.len() && 0 <= j < s.fleet[h].machines.len() ==> ((
        #[trigger] s.fleet[h].machines[j]).ssh is Some <==> (h < group || (h == group && j
            < machine)))
}

/// Every machine of the fleet stands in the group, and at the place, at
/// which its instance was launched.
pub open spec fn fleet_tracks<F, S>(s: RunState<F, S>) -> bool {
    &&& s.fleet.len() <= s.launched.len()
    &&& forall|h: int| 0 <= h < s.fleet.len() ==> (#[trigger] s.fleet[h]).name == s.groups[h].name
    &&& forall|h: int|
        0 <= h < s.fleet.len() ==> (#[trigger] s.fleet[h]).machines.len() <= s.launched[h].len()
    &&& forall|h: int, j: int|
        0 <= h < s.fleet.len() && 0 <= j < s.fleet[h].machines.len() ==> (
        #[trigger] s.fleet[h].machines[j]).instance_id == s.launched[h][j]
}

/// The failure is one of launching.
pub open spec fn launch_failed(outcome: Option<RunErrorView>) -> bool {
    outcome matches Some(error) && (error is LaunchRejected || error is LaunchUnfulfilled)
}

/// The invariant of the lifecycle.
pub open spec fn inv<F, S>(s: RunState<F, S>) -> bool {
    &&& distinct_names(s.groups)
    &&& counts_met(s.groups, s.launched)
    &&& ids_sound(s.launched)
    &&& fleet_tracks(s)
    &&& match s.phase {
        Phase::Idle => s.launched.len() == 0 && s.fleet.len() == 0 && s.outcome is None,
        Phase::Launching { group } => {
            &&& 0 <= group < s.groups.len()
            &&& s.launched.len() == group
            &&& fleet_filled(s, 0, 0)
            &&& s.outcome is None
        },
        Phase::AwaitingReady { group, machine, polls, sleeping } => {
            &&& s.launched.len() == s.groups.len()
            &&& 0 <= group < s.launched.len()
            &&& 0 <= machine < s.launched[group].len()
            &&& 0 <= polls <= u32::MAX
            &&& fleet_filled(s, group, machine)
            &&& sessions_filled(s, 0, 0)
            &&& s.outcome is None
        },
        Phase::Configuring { group, machine } => {
            &&& s.launched.len() == s.groups.len()
            &&& 0 <= group < s.launched.len()
            &&& 0 <= machine < s.launched[group].len()
            &&& fleet_filled(s, s.launched.len() as int, 0)
            &&& sessions_filled(s, group, machine)
            &&& s.outcome is None
        },
        Phase::Running => {
            &&& s.launched.len() == s.groups.len()
            &&& s.fleet.len() == 0
            &&& s.outcome is None
        },
        Phase::Terminating => s.launched.len() == s.groups.len() && !launch_failed(s.outcome),
        Phase::Done => true,
    }
}

/// `next_group` finds the first group with instances at or after `from`.
pub proof fn lemma_next_group(launched: Seq<Seq<Seq<char>>>, from: int)
    requires
        0 <= from <= launched.len(),
    ensures
        from <= next_group(launched, from) <= launched.len(),
        next_group(launched, from) < launched.len() ==> launched[next_group(launched, from)].len()
            > 0,
        forall|h: int| from <= h < next_group(launched, from) ==> (#[trigger] launched[h]).len() == 0,
    decreases launched.len() - from,
{
    if from < launched.len() && launched[from].len() == 0 {
        lemma_next_group(launched, from + 1);
    }
}

/// Every transition keeps the invariant.
pub proof fn lemma_next_keeps_inv<F, S>(s: RunState<F, S>, e: EventView<S>)
    requires
        inv(s),
    ensures
        inv(next(s, e).0),
{
    match s.phase {
        Phase::Idle => {
            lemma_next_group(s.launched, 0);
        },
        Phase::Launching { group } => {
            match e {
                EventView::Launched { instance_ids } => {
                    lemma_after_launch(s, group, instance_ids);
                },
                _ => {},
            }
        },
        Phase::AwaitingReady { group, machine, polls, sleeping } => {
            lemma_next_group(s.launched, group + 1);
            lemma_next_group(s.launched, 0);
        },
        Phase::Configuring { group, machine } => {
            lemma_next_group(s.launched, group + 1);
        },
        _ => {},
    }
}

proof fn lemma_after_launch<F, S>(s: RunState<F, S>, group: int, ids: Seq<Seq<char>>)
    requires
        inv(s),
        s.phase == (Phase::Launching { group: group }),
    ensures
        inv(next(s, EventView::Launched { instance_ids: ids }).0),
{
    if fulfilled(s.launched, s.groups[group].number, ids) {
        let t = with_launched(s, group, ids);
        lemma_next_group(t.launched, 0);
        assert(ids_sound(t.launched)) by {
            assert forall|g: int, k: int, h: int, j: int|
                0 <= g < t.launched.len() && 0 <= k < t.launched[g].len() && 0 <= h
                    < t.launched.len() && 0 <= j < t.launched[h].len()
                    && #[trigger] t.launched[g][k] == #[trigger] t.launched[h][j] implies g == h
                && k == j by {
                if g < group && h < group {
                    assert(t.launched[g][k] == s.launched[g][k]);
                    assert(t.launched[h][j] == s.launched[h][j]);
                } else if g == group && h == group {
                    assert(t.launched[g][k] == ids[k]);
                    assert(t.launched[h][j] == ids[j]);
                    if k < j {
                        assert(ids[k] != ids[j]);
                    } else if j < k {
                        assert(ids[j] != ids[k]);
                    }
                } else if g == group {
                    assert(s.launched[h][j] == ids[k]);
                    assert(is_launched(s.launched, ids[k]));
                } else {
                    assert(s.launched[g][k] == ids[j]);
                    assert(is_launched(s.launched, ids[j]));
                }
            }
            assert forall|g: int, k: int|
                0 <= g < t.launched.len() && 0 <= k < t.launched[g].len() implies (
            #[trigger] t.launched[g][k]).len() > 0 by {
                if g < group {
                    assert(t.launched[g][k] == s.launched[g][k]);
                } else {
                    assert(t.launched[g][k] == ids[k]);
                }
            }
        }
    }
}

/// A launched id stands in one group only, and the index gives that group's name.
pub proof fn lemma_index_at<F, S>(s: RunState<F, S>, g: int, k: int)
    requires
        ids_sound(s.launched),
        0 <= g < s.launched.len(),
        0 <= k < s.launched[g].len(),
    ensures
        index(s).dom().contains(s.launched[g][k]),
        group_of(s.launched, s.launched[g][k]) == g,
        index(s)[s.launched[g][k]] == s.groups[g].name,
{
    let id = s.launched[g][k];
    assert(stands_at(s.launched, id, g, k));
    assert(stands_in(s.launched, id, g));
    let h = group_of(s.launched, id);
    let j = choose|j: int| #[trigger] stands_at(s.launched, id, h, j);
    assert(s.launched[h][j] == s.launched[g][k]);
}

} // verus!

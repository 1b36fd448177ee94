//! The orchestrator: the state of one run, and the step that takes it from
//! one event to the next action.

use crate::error::{RunError, TerminationWarning};
use crate::fleet::{Fleet, FleetGroup};
use crate::machine::is_instance_ready;
use crate::model;
use crate::model::RunState;
use crate::protocol::{result_view, Action, Event, Phase, Stage, POLL_BACKOFF_SECS};
use crate::reachable;
use crate::registry::{Group, TsunamiBuilder};
use crate::transport::{key_file, ssh_endpoint};
use vstd::prelude::*;

verus! {

/// One run of the lifecycle.
pub struct Orchestrator<F, S> {
    groups: Vec<Group<F>>,
    max_duration: i64,
    max_polls: Option<u32>,
    stage: Stage,
    launched: Vec<Vec<String>>,
    fleet: Fleet<S>,
    outcome: Option<RunError>,
}

impl<F, S> View for Orchestrator<F, S> {
    type V = RunState<F, S>;

    closed spec fn view(&self) -> RunState<F, S> {
        RunState {
            groups: self.groups.deep_view(),
            max_duration: self.max_duration as int,
            max_polls: self.max_polls,
            phase: self.stage@,
            launched: self.launched.deep_view(),
            fleet: self.fleet@,
            outcome: self.outcome.deep_view(),
        }
    }
}

impl<F> TsunamiBuilder<F> {
    /// Turns the registry into a run that has not begun. The driver starts it
    /// by reporting `Event::Start`.
    pub fn run<S>(self) -> (run: Orchestrator<F, S>)
        requires
            self.wf(),
        ensures
            run@ == model::initial::<F, S>(self@),
            run.inv(),
    {
        let (groups, max_duration, max_polls) = self.into_parts();
        let run = Orchestrator {
            groups: groups,
            max_duration: max_duration,
            max_polls: max_polls,
            stage: Stage::Idle,
            launched: Vec::new(),
            fleet: Fleet::new(),
            outcome: None,
        };
        assert(run@.launched =~= Seq::empty());
        assert(run@.fleet =~= Seq::empty());
        run
    }
}

impl<F, S> Orchestrator<F, S> {
    /// The state is one that a run can reach.
    pub open spec fn inv(&self) -> bool {
        reachable::inv(self@)
    }

    pub fn stage(&self) -> (stage: Stage)
        ensures
            stage@ == self@.phase,
    {
        self.stage
    }

    /// The advisory ceiling on the run's duration, in minutes.
    pub fn max_duration(&self) -> (minutes: i64)
        ensures
            minutes == self@.max_duration,
    {
        self.max_duration
    }

    /// The setup routine of group `group`, if there is such a group.
    pub fn setup_routine(&self, group: usize) -> (routine: Option<&F>)
        ensures
            routine is Some <==> group < self@.groups.len(),
            routine is Some ==> *routine.unwrap() == self@.groups[group as int].setup.setup,
    {
        if group < self.groups.len() {
            assert(self@.groups[group as int] == self.groups[group as int]@);
            Some(self.groups[group].setup.setup())
        } else {
            None
        }
    }

    /// The failure that the run will report, if one is known by now.
    pub fn outcome(&self) -> (outcome: Option<RunError>)
        ensures
            outcome.deep_view() == self@.outcome,
    {
        match &self.outcome {
            Some(error) => Some(error.clone()),
            None => None,
        }
    }

    /// The name of the group that instance `id` was launched for, if it was
    /// launched in this run.
    pub fn group_name(&self, id: &str) -> (name: Option<String>)
        requires
            self.inv(),
        ensures
            name is Some <==> model::index(self@).dom().contains(id@),
            name is Some ==> name.unwrap()@ == model::index(self@)[id@],
    {
        let ghost launched = self.launched.deep_view();
        let wanted = id.to_owned();
        let mut g: usize = 0;
        while g < self.launched.len()
            invariant
                g <= self.launched.len(),
                self.inv(),
                wanted@ == id@,
                launched == self.launched.deep_view(),
                forall|h: int, j: int|
                    0 <= h < g && 0 <= j < launched[h].len() ==> #[trigger] launched[h][j] != id@,
            decreases self.launched.len() - g,
        {
            let row = &self.launched[g];
            assert(row.deep_view() == launched[g as int]);
            let mut k: usize = 0;
            while k < row.len()
                invariant
                    k <= row.len(),
                    g < self.launched.len(),
                    self.inv(),
                    wanted@ == id@,
                    launched == self.launched.deep_view(),
                    row.deep_view() == launched[g as int],
                    forall|j: int| 0 <= j < k ==> #[trigger] launched[g as int][j] != id@,
                decreases row.len() - k,
            {
                assert(row.deep_view()[k as int] == row[k as int]@);
                if row[k] == wanted {
                    proof {
                        assert(launched[g as int][k as int] == id@);
                        reachable::lemma_index_at(self@, g as int, k as int);
                        assert(self@.groups[g as int] == self.groups[g as int]@);
                    }
                    return Some(self.groups[g].name.clone());
                }
                k += 1;
            }
            g += 1;
        }
        None
    }

    /// Every launched id, in launch order.
    pub fn launched_ids(&self) -> (ids: Vec<String>)
        ensures
            ids.deep_view() == model::all_ids(self@.launched),
    {
        let ghost launched = self.launched.deep_view();
        let mut ids: Vec<String> = Vec::new();
        let mut g: usize = 0;
        assert(launched.take(0) =~= Seq::empty());
        while g < self.launched.len()
            invariant
                g <= self.launched.len(),
                launched == self.launched.deep_view(),
                ids.deep_view() == model::all_ids(launched.take(g as int)),
            decreases self.launched.len() - g,
        {
            let row = &self.launched[g];
            let ghost before = ids.deep_view();
            let mut k: usize = 0;
            while k < row.len()
                invariant
                    k <= row.len(),
                    ids.deep_view() == before + row.deep_view().take(k as int),
                decreases row.len() - k,
            {
                let ghost so_far = ids.deep_view();
                ids.push(row[k].clone());
                proof {
                    assert(row.deep_view()[k as int] == row[k as int]@);
                    assert(ids.deep_view() =~= so_far.push(row[k as int]@));
                    assert(row.deep_view().take(k + 1) =~= row.deep_view().take(k as int).push(
                        row[k as int]@,
                    ));
                    assert(ids.deep_view() =~= before + row.deep_view().take(k + 1));
                }
                k += 1;
            }
            proof {
                assert(row.deep_view().take(k as int) =~= row.deep_view());
                assert(launched.take(g + 1).drop_last() =~= launched.take(g as int));
                assert(launched.take(g + 1).last() == row.deep_view());
            }
            g += 1;
        }
        assert(launched.take(g as int) =~= launched);
        ids
    }

    fn find_group(&self, from: usize) -> (group: usize)
        requires
            from <= self@.launched.len(),
        ensures
            group == model::next_group(self@.launched, from as int),
            from <= group <= self@.launched.len(),
    {
        let mut g: usize = from;
        while g < self.launched.len() && self.launched[g].len() == 0
            invariant
                from <= g <= self.launched.len(),
                model::next_group(self@.launched, from as int) == model::next_group(
                    self@.launched,
                    g as int,
                ),
            decreases self.launched.len() - g,
        {
            assert(self@.launched[g as int] == self.launched[g as int].deep_view());
            g += 1;
        }
        proof {
            if g < self.launched.len() {
                assert(self@.launched[g as int] == self.launched[g as int].deep_view());
            }
        }
        g
    }

    fn was_launched(&self, id: &String) -> (yes: bool)
        ensures
            yes == model::is_launched(self@.launched, id@),
    {
        let ghost launched = self.launched.deep_view();
        let mut g: usize = 0;
        while g < self.launched.len()
            invariant
                g <= self.launched.len(),
                launched == self.launched.deep_view(),
                forall|h: int, j: int|
                    0 <= h < g && 0 <= j < launched[h].len() ==> #[trigger] launched[h][j] != id@,
            decreases self.launched.len() - g,
        {
            let row = &self.launched[g];
            assert(row.deep_view() == launched[g as int]);
            let mut k: usize = 0;
            while k < row.len()
                invariant
                    k <= row.len(),
                    g < self.launched.len(),
                    launched == self.launched.deep_view(),
                    row.deep_view() == launched[g as int],
                    forall|j: int| 0 <= j < k ==> #[trigger] launched[g as int][j] != id@,
                decreases row.len() - k,
            {
                assert(row.deep_view()[k as int] == row[k as int]@);
                if row[k] == *id {
                    assert(launched[g as int][k as int] == id@);
                    return true;
                }
                k += 1;
            }
            g += 1;
        }
        false
    }

    fn is_fulfilled(&self, number: u16, ids: &Vec<String>) -> (yes: bool)
        ensures
            yes == model::fulfilled(self@.launched, number, ids.deep_view()),
    {
        let ghost given = ids.deep_view();
        if ids.len() != number as usize {
            return false;
        }
        let mut i: usize = 0;
        while i < ids.len()
            invariant
                i <= ids.len(),
                given == ids.deep_view(),
                forall|a: int| 0 <= a < i ==> (#[trigger] given[a]).len() > 0,
                forall|a: int, b: int| 0 <= a < b < i ==> #[trigger] given[a] != #[trigger] given[b],
                forall|a: int| 0 <= a < i ==> !model::is_launched(self@.launched, #[trigger] given[a]),
            decreases ids.len() - i,
        {
            assert(given[i as int] == ids[i as int]@);
            if ids[i].as_str().is_empty() {
                return false;
            }
            if self.was_launched(&ids[i]) {
                return false;
            }
            let mut a: usize = 0;
            while a < i
                invariant
                    a <= i < ids.len(),
                    given == ids.deep_view(),
                    forall|b: int| 0 <= b < a ==> #[trigger] given[b] != given[i as int],
                decreases i - a,
            {
                assert(given[a as int] == ids[a as int]@);
                assert(given[i as int] == ids[i as int]@);
                if ids[a] == ids[i] {
                    return false;
                }
                a += 1;
            }
            i += 1;
        }
        true
    }

    fn launch_request(&self, group: usize) -> (action: Action<S>)
        requires
            group < self@.groups.len(),
        ensures
            action@ == model::launch_action(self@, group as int),
    {
        let entry = &self.groups[group];
        assert(self@.groups[group as int] == entry@);
        Action::Launch {
            group: group,
            name: entry.name.clone(),
            number: entry.number,
            instance_type: entry.setup.instance_type().clone(),
            ami: entry.setup.ami().clone(),
            key_name: entry.setup.key_name().clone(),
        }
    }

    fn describe_request(&self, group: usize, machine: usize) -> (action: Action<S>)
        requires
            group < self@.launched.len(),
            machine < self@.launched[group as int].len(),
        ensures
            action@ == model::describe_action(self@, group as int, machine as int),
    {
        assert(self@.launched[group as int] == self.launched[group as int].deep_view());
        assert(self@.launched[group as int][machine as int] == self.launched[group as int][machine as int]@);
        Action::Describe { instance_id: self.launched[group][machine].clone() }
    }

    fn configure_request(&self, group: usize, machine: usize) -> (action: Action<S>)
        requires
            group < self@.groups.len(),
            group < self@.fleet.len(),
            machine < self@.fleet[group as int].machines.len(),
        ensures
            action@ == model::configure_action(self@, group as int, machine as int),
    {
        let entry = &self.groups[group];
        assert(self@.groups[group as int] == entry@);
        let row = &self.fleet.groups[group];
        assert(self@.fleet[group as int] == row@);
        assert(row@.machines[machine as int] == row.machines[machine as int]@);
        Action::Configure {
            group: group,
            name: entry.name.clone(),
            endpoint: ssh_endpoint(row.machines[machine].public_dns.as_str()),
            key_file: key_file(entry.setup.key_name().as_str()),
        }
    }

    fn abort(&mut self, error: RunError) -> (action: Action<S>)
        ensures
            (final(self)@, action@) == model::abort::<F, S>(old(self)@, error@),
    {
        self.stage = Stage::Done;
        self.outcome = Some(error.clone());
        Action::Finish { result: Err(error), warning: None }
    }

    fn tear_down(&mut self, outcome: Option<RunError>) -> (action: Action<S>)
        ensures
            (final(self)@, action@) == model::tear_down::<F, S>(old(self)@, outcome.deep_view()),
    {
        self.stage = Stage::Terminating;
        self.outcome = outcome;
        Action::Terminate { instance_ids: self.launched_ids() }
    }

    fn hand_over(&mut self) -> (action: Action<S>)
        ensures
            (final(self)@, action@) == model::hand_over::<F, S>(old(self)@),
    {
        let mut fleet = Fleet::new();
        core::mem::swap(&mut self.fleet, &mut fleet);
        self.stage = Stage::Running;
        assert(self@.fleet =~= Seq::empty());
        Action::Workload { fleet: fleet }
    }

    fn begin_polling(&mut self) -> (action: Action<S>)
        ensures
            (final(self)@, action@) == model::begin_polling::<F, S>(old(self)@),
    {
        let group = self.find_group(0);
        if group < self.launched.len() {
            assert(self@.launched[group as int] == self.launched[group as int].deep_view());
            proof {
                reachable::lemma_next_group(self@.launched, 0);
            }
            let action = self.describe_request(group, 0);
            self.stage = Stage::AwaitingReady { group: group, machine: 0, polls: 0, sleeping: false };
            action
        } else {
            self.hand_over()
        }
    }

    fn begin_configuring(&mut self) -> (action: Action<S>)
        requires
            old(self)@.launched.len() == old(self)@.groups.len(),
            reachable::fleet_filled(old(self)@, old(self)@.launched.len() as int, 0),
        ensures
            (final(self)@, action@) == model::begin_configuring::<F, S>(old(self)@),
    {
        let group = self.find_group(0);
        if group < self.launched.len() {
            proof {
                reachable::lemma_next_group(self@.launched, 0);
            }
            let action = self.configure_request(group, 0);
            self.stage = Stage::Configuring { group: group, machine: 0 };
            action
        } else {
            self.hand_over()
        }
    }

    fn successor(&self, group: usize, machine: usize) -> (place: (usize, usize))
        requires
            group < self@.launched.len(),
            machine < self@.launched[group as int].len(),
        ensures
            (place.0 as int, place.1 as int) == model::successor(
                self@.launched,
                group as int,
                machine as int,
            ),
            place.0 <= self@.launched.len(),
            place.0 < self@.launched.len() ==> place.1 < self@.launched[place.0 as int].len(),
    {
        assert(self@.launched[group as int] == self.launched[group as int].deep_view());
        proof {
            reachable::lemma_next_group(self@.launched, group + 1);
        }
        assert(group < self.launched.len());
        assert(machine < self.launched[group as int].len());
        if machine + 1 < self.launched[group].len() {
            (group, machine + 1)
        } else {
            (self.find_group(group + 1), 0)
        }
    }

    fn on_idle(&mut self, event: Event<S>) -> (action: Action<S>)
        requires
            old(self).inv(),
            old(self)@.phase == Phase::Idle,
        ensures
            (final(self)@, action@) == model::on_idle(old(self)@, event@),
    {
        match event {
            Event::Start => {
                if self.groups.len() > 0 {
                    let action = self.launch_request(0);
                    self.stage = Stage::Launching { group: 0 };
                    action
                } else {
                    self.begin_polling()
                }
            },
            _ => Action::Ignored,
        }
    }

    fn on_launching(&mut self, group: usize, event: Event<S>) -> (action: Action<S>)
        requires
            old(self).inv(),
            old(self)@.phase == (Phase::Launching { group: group as int }),
        ensures
            (final(self)@, action@) == model::on_launching(old(self)@, group as int, event@),
    {
        assert(self@.groups[group as int] == self.groups[group as int]@);
        match event {
            Event::Launched { instance_ids } => {
                if self.is_fulfilled(self.groups[group].number, &instance_ids) {
                    let ghost ids = instance_ids.deep_view();
                    self.launched.push(instance_ids);
                    self.fleet.groups.push(
                        FleetGroup { name: self.groups[group].name.clone(), machines: Vec::new() },
                    );
                    proof {
                        let t = model::with_launched(old(self)@, group as int, ids);
                        assert(self@.launched =~= t.launched);
                        assert(self.fleet.groups[group as int]@.machines =~= Seq::empty());
                        assert(self@.fleet =~= t.fleet);
                        assert(self@ == t);
                    }
                    assert(group < self.groups.len());
                    if group + 1 < self.groups.len() {
                        let action = self.launch_request(group + 1);
                        self.stage = Stage::Launching { group: group + 1 };
                        action
                    } else {
                        self.begin_polling()
                    }
                } else {
                    let error = RunError::LaunchUnfulfilled {
                        group: self.groups[group].name.clone(),
                    };
                    self.abort(error)
                }
            },
            Event::LaunchFailed { cause } => {
                let error = RunError::LaunchRejected {
                    group: self.groups[group].name.clone(),
                    cause: cause,
                };
                self.abort(error)
            },
            _ => Action::Ignored,
        }
    }

    fn count_poll(polls: u32) -> (counted: u32)
        ensures
            counted == model::one_more(polls as int),
    {
        if polls < u32::MAX {
            polls + 1
        } else {
            polls
        }
    }

    fn out_of_polls(&self, polls: u32) -> (yes: bool)
        ensures
            yes == (self@.max_polls is Some && polls >= self@.max_polls.unwrap()),
    {
        match self.max_polls {
            Some(limit) => polls >= limit,
            None => false,
        }
    }

    fn on_awaiting(
        &mut self,
        group: usize,
        machine: usize,
        polls: u32,
        sleeping: bool,
        event: Event<S>,
    ) -> (action: Action<S>)
        requires
            old(self).inv(),
            old(self)@.phase == (Phase::AwaitingReady {
                group: group as int,
                machine: machine as int,
                polls: polls as int,
                sleeping: sleeping,
            }),
        ensures
            (final(self)@, action@) == model::on_awaiting(
                old(self)@,
                group as int,
                machine as int,
                polls as int,
                sleeping,
                event@,
            ),
    {
        assert(self@.launched[group as int] == self.launched[group as int].deep_view());
        assert(self@.launched[group as int][machine as int] == self.launched[group as int][machine as int]@);
        match event {
            Event::Slept => {
                if sleeping {
                    let action = self.describe_request(group, machine);
                    self.stage = Stage::AwaitingReady {
                        group: group,
                        machine: machine,
                        polls: polls,
                        sleeping: false,
                    };
                    action
                } else {
                    Action::Ignored
                }
            },
            Event::Described { instances } => {
                if sleeping {
                    return Action::Ignored;
                }
                match is_instance_ready::<S>(&instances) {
                    Some(m) => {
                        if m.instance_id == self.launched[group][machine] {
                            let place = self.successor(group, machine);
                            let ghost mv = m@;
                            self.fleet.groups[group].machines.push(m);
                            proof {
                                let t = model::with_machine(old(self)@, group as int, mv);
                                assert(self.fleet.groups[group as int]@.machines =~= old(
                                    self,
                                ).fleet.groups[group as int]@.machines.push(mv));
                                assert(self@.fleet =~= t.fleet);
                                assert(self@ == t);
                            }
                            if place.0 < self.launched.len() {
                                let action = self.describe_request(place.0, place.1);
                                self.stage = Stage::AwaitingReady {
                                    group: place.0,
                                    machine: place.1,
                                    polls: 0,
                                    sleeping: false,
                                };
                                action
                            } else {
                                proof {
                                    reachable::lemma_next_group(old(self)@.launched, group + 1);
                                    assert(reachable::fleet_filled(
                                        self@,
                                        self@.launched.len() as int,
                                        0,
                                    ));
                                }
                                self.begin_configuring()
                            }
                        } else {
                            let error = RunError::InvariantViolation {
                                instance_id: self.launched[group][machine].clone(),
                            };
                            self.tear_down(Some(error))
                        }
                    },
                    None => {
                        let counted = Self::count_poll(polls);
                        if self.out_of_polls(counted) {
                            let error = RunError::ReadinessTimeout {
                                instance_id: self.launched[group][machine].clone(),
                            };
                            self.tear_down(Some(error))
                        } else {
                            self.stage = Stage::AwaitingReady {
                                group: group,
                                machine: machine,
                                polls: counted,
                                sleeping: true,
                            };
                            Action::Sleep { seconds: POLL_BACKOFF_SECS }
                        }
                    },
                }
            },
            Event::DescribeFailed { cause } => {
                if sleeping {
                    return Action::Ignored;
                }
                let error = RunError::ReadinessQuery {
                    instance_id: self.launched[group][machine].clone(),
                    cause: cause,
                };
                self.tear_down(Some(error))
            },
            _ => Action::Ignored,
        }
    }

    fn on_configuring(&mut self, group: usize, machine: usize, event: Event<S>) -> (action: Action<S>)
        requires
            old(self).inv(),
            old(self)@.phase == (Phase::Configuring {
                group: group as int,
                machine: machine as int,
            }),
        ensures
            (final(self)@, action@) == model::on_configuring(
                old(self)@,
                group as int,
                machine as int,
                event@,
            ),
    {
        assert(self@.groups[group as int] == self.groups[group as int]@);
        assert(self@.fleet[group as int] == self.fleet.groups[group as int]@);
        assert(self@.fleet[group as int].machines[machine as int] == self.fleet.groups[group as int].machines[machine as int]@);
        match event {
            Event::Configured { session } => {
                let place = self.successor(group, machine);
                self.fleet.groups[group].machines[machine].ssh = Some(session);
                proof {
                    let t = model::with_session(old(self)@, group as int, machine as int, session);
                    assert(self.fleet.groups[group as int]@.machines =~= t.fleet[group as int].machines);
                    assert(self@.fleet =~= t.fleet);
                    assert(self@ == t);
                }
                if place.0 < self.launched.len() {
                    let action = self.configure_request(place.0, place.1);
                    self.stage = Stage::Configuring { group: place.0, machine: place.1 };
                    action
                } else {
                    self.hand_over()
                }
            },
            Event::ConnectFailed { cause } => {
                let error = RunError::Connect {
                    group: self.groups[group].name.clone(),
                    address: self.fleet.groups[group].machines[machine].public_dns.clone(),
                    cause: cause,
                };
                self.tear_down(Some(error))
            },
            Event::SetupFailed { cause } => {
                let error = RunError::Setup {
                    group: self.groups[group].name.clone(),
                    address: self.fleet.groups[group].machines[machine].public_dns.clone(),
                    cause: cause,
                };
                self.tear_down(Some(error))
            },
            _ => Action::Ignored,
        }
    }

    fn on_running(&mut self, event: Event<S>) -> (action: Action<S>)
        ensures
            (final(self)@, action@) == model::on_running(old(self)@, event@),
    {
        match event {
            Event::WorkloadSucceeded => self.tear_down(None),
            Event::WorkloadFailed { cause } => self.tear_down(
                Some(RunError::Workload { cause: cause }),
            ),
            _ => Action::Ignored,
        }
    }

    fn report(&self) -> (result: Result<(), RunError>)
        ensures
            result_view(result) == model::report(self@.outcome),
    {
        match &self.outcome {
            Some(error) => Err(error.clone()),
            None => Ok(()),
        }
    }

    fn on_terminating(&mut self, event: Event<S>) -> (action: Action<S>)
        ensures
            (final(self)@, action@) == model::on_terminating(old(self)@, event@),
    {
        match event {
            Event::Terminated => {
                let result = self.report();
                self.stage = Stage::Done;
                Action::Finish { result: result, warning: None }
            },
            Event::TerminateFailed { cause } => {
                let result = self.report();
                self.stage = Stage::Done;
                Action::Finish { result: result, warning: Some(TerminationWarning { cause: cause }) }
            },
            _ => Action::Ignored,
        }
    }

    /// Takes the run from the event that the driver reports to the action that
    /// the driver is to carry out next.
    pub fn step(&mut self, event: Event<S>) -> (action: Action<S>)
        requires
            old(self).inv(),
        ensures
            final(self).inv(),
            (final(self)@, action@) == model::next(old(self)@, event@),
    {
        proof {
            reachable::lemma_next_keeps_inv(self@, event@);
        }
        match self.stage {
            Stage::Idle => self.on_idle(event),
            Stage::Launching { group } => self.on_launching(group, event),
            Stage::AwaitingReady { group, machine, polls, sleeping } => self.on_awaiting(
                group,
                machine,
                polls,
                sleeping,
                event,
            ),
            Stage::Configuring { group, machine } => self.on_configuring(group, machine, event),
            Stage::Running => self.on_running(event),
            Stage::Terminating => self.on_terminating(event),
            Stage::Done => Action::Ignored,
        }
    }
}

} // verus!

//! Machine records and the classification of a provider's status answer.

use vstd::prelude::*;

verus! {

/// Lifecycle state that the provider reports for an instance.
#[derive(Clone, Copy, Debug, PartialEq, Eq, Structural)]
pub enum InstanceState {
    Pending,
    Running,
    ShuttingDown,
    Terminated,
    Stopping,
    Stopped,
    /// The provider gave a state record without a state name that is known here.
    Unknown,
}

/// What one status query tells about one instance. Every attribute may be missing.
#[derive(Debug)]
pub struct InstanceReport {
    pub instance_id: Option<String>,
    pub instance_type: Option<String>,
    pub private_ip: Option<String>,
    pub public_dns: Option<String>,
    pub key_name: Option<String>,
    pub state: Option<InstanceState>,
}

/// Mathematical value of an `InstanceReport`.
pub struct InstanceReportView {
    pub instance_id: Option<Seq<char>>,
    pub instance_type: Option<Seq<char>>,
    pub private_ip: Option<Seq<char>>,
    pub public_dns: Option<Seq<char>>,
    pub key_name: Option<Seq<char>>,
    pub state: Option<InstanceState>,
}

impl View for InstanceReport {
    type V = InstanceReportView;

    open spec fn view(&self) -> InstanceReportView {
        InstanceReportView {
            instance_id: self.instance_id.deep_view(),
            instance_type: self.instance_type.deep_view(),
            private_ip: self.private_ip.deep_view(),
            public_dns: self.public_dns.deep_view(),
            key_name: self.key_name.deep_view(),
            state: self.state,
        }
    }
}

impl DeepView for InstanceReport {
    type V = InstanceReportView;

    open spec fn deep_view(&self) -> InstanceReportView {
        self@
    }
}

/// A provisioned instance that was seen running with all its attributes.
///
/// `ssh` is empty until the machine has been configured; from then on the
/// machine owns its session.
#[derive(Debug)]
pub struct Machine<S> {
    pub ssh: Option<S>,
    pub instance_type: String,
    pub private_ip: String,
    pub public_dns: String,
    pub instance_id: String,
    pub key_name: String,
}

/// Mathematical value of a `Machine`.
pub struct MachineView<S> {
    pub ssh: Option<S>,
    pub instance_type: Seq<char>,
    pub private_ip: Seq<char>,
    pub public_dns: Seq<char>,
    pub instance_id: Seq<char>,
    pub key_name: Seq<char>,
}

impl<S> View for Machine<S> {
    type V = MachineView<S>;

    open spec fn view(&self) -> MachineView<S> {
        MachineView {
            ssh: self.ssh,
            instance_type: self.instance_type@,
            private_ip: self.private_ip@,
            public_dns: self.public_dns@,
            instance_id: self.instance_id@,
            key_name: self.key_name@,
        }
    }
}

impl<S> DeepView for Machine<S> {
    type V = MachineView<S>;

    open spec fn deep_view(&self) -> MachineView<S> {
        self@
    }
}

/// An attribute counts as populated when it is there and not the empty text.
pub open spec fn populated(field: Option<Seq<char>>) -> bool {
    field is Some && field.unwrap().len() > 0
}

impl InstanceReportView {
    /// Identity, kind, both addresses and key are populated, and a state is given.
    pub open spec fn complete(self) -> bool {
        &&& populated(self.instance_id)
        &&& populated(self.instance_type)
        &&& populated(self.private_ip)
        &&& populated(self.public_dns)
        &&& populated(self.key_name)
        &&& self.state is Some
    }

    pub open spec fn running(self) -> bool {
        self.state == Some(InstanceState::Running)
    }

    /// The machine record that a complete report stands for, not yet configured.
    pub open spec fn machine<S>(self) -> MachineView<S> {
        MachineView {
            ssh: None,
            instance_type: self.instance_type.unwrap(),
            private_ip: self.private_ip.unwrap(),
            public_dns: self.public_dns.unwrap(),
            instance_id: self.instance_id.unwrap(),
            key_name: self.key_name.unwrap(),
        }
    }
}

/// Report `i` decides the answer: it is running, every report up to it is
/// complete, and no report before it is running.
pub open spec fn answers_at(instances: Seq<InstanceReportView>, i: int) -> bool {
    &&& 0 <= i < instances.len()
    &&& instances[i].running()
    &&& forall|j: int| 0 <= j <= i ==> (#[trigger] instances[j]).complete()
    &&& forall|j: int| 0 <= j < i ==> !(#[trigger] instances[j]).running()
}

/// What a status answer means: the machine of the first running report, provided
/// that no incomplete report comes before it or is it; otherwise not ready.
pub open spec fn readiness<S>(instances: Seq<InstanceReportView>) -> Option<MachineView<S>> {
    if exists|i: int| answers_at(instances, i) {
        Some(instances[choose|i: int| answers_at(instances, i)].machine())
    } else {
        None
    }
}

/// At most one report decides an answer.
pub proof fn lemma_answer_unique(instances: Seq<InstanceReportView>, i: int, j: int)
    requires
        answers_at(instances, i),
        answers_at(instances, j),
    ensures
        i == j,
{
    if i < j {
        assert(!instances[i].running());
    } else if j < i {
        assert(!instances[j].running());
    }
}

fn is_populated(field: &Option<String>) -> (yes: bool)
    ensures
        yes == populated(field.deep_view()),
{
    match field {
        Some(text) => !text.as_str().is_empty(),
        None => false,
    }
}

fn text_of(field: &Option<String>) -> (text: String)
    ensures
        field is Some ==> text@ == field.deep_view().unwrap(),
        field is None ==> text@ == Seq::<char>::empty(),
{
    match field {
        Some(text) => text.clone(),
        None => String::new(),
    }
}

impl InstanceReport {
    pub fn is_complete(&self) -> (yes: bool)
        ensures
            yes == self@.complete(),
    {
        is_populated(&self.instance_id) && is_populated(&self.instance_type) && is_populated(
            &self.private_ip,
        ) && is_populated(&self.public_dns) && is_populated(&self.key_name)
            && self.state.is_some()
    }

    pub fn is_running(&self) -> (yes: bool)
        ensures
            yes == self@.running(),
    {
        match self.state {
            Some(InstanceState::Running) => true,
            _ => false,
        }
    }
}

/// Classifies the answer to a status query for one instance.
///
/// Returns the machine when the instance is ready, and `None` when it is not
/// yet: reports are read in order; an incomplete one ends the reading with
/// "not ready", a complete one that is not running is passed over.
pub fn is_instance_ready<S>(instances: &Vec<InstanceReport>) -> (ready: Option<Machine<S>>)
    ensures
        ready.deep_view() == readiness::<S>(instances.deep_view()),
{
    let ghost reports = instances.deep_view();
    let mut i: usize = 0;
    while i < instances.len()
        invariant
            i <= instances.len(),
            reports == instances.deep_view(),
            forall|j: int| 0 <= j < i ==> (#[trigger] reports[j]).complete(),
            forall|j: int| 0 <= j < i ==> !(#[trigger] reports[j]).running(),
        decreases instances.len() - i,
    {
        let report = &instances[i];
        assert(report@ == reports[i as int]);
        if !report.is_complete() {
            proof {
                assert forall|k: int| !answers_at(reports, k) by {
                    if answers_at(reports, k) {
                        if k < i {
                            assert(!reports[k].running());
                        } else {
                            assert(reports[i as int].complete());
                        }
                    }
                }
            }
            return None;
        }
        if report.is_running() {
            let machine = Machine {
                ssh: None,
                instance_type: text_of(&report.instance_type),
                private_ip: text_of(&report.private_ip),
                public_dns: text_of(&report.public_dns),
                instance_id: text_of(&report.instance_id),
                key_name: text_of(&report.key_name),
            };
            proof {
                assert(answers_at(reports, i as int));
                let c = choose|k: int| answers_at(reports, k);
                lemma_answer_unique(reports, c, i as int);
                assert(machine@ == reports[i as int].machine::<S>());
            }
            return Some(machine);
        }
        i += 1;
    }
    proof {
        assert forall|k: int| !answers_at(reports, k) by {
            if answers_at(reports, k) {
                assert(!reports[k].running());
            }
        }
    }
    None
}

} // verus!

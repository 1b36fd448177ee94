//! The fleet: for each group, in registry order, its machines in the order in
//! which they became ready.

use crate::machine::{Machine, MachineView};
use vstd::prelude::*;

verus! {

/// The machines of one group.
#[derive(Debug)]
pub struct FleetGroup<S> {
    pub name: String,
    pub machines: Vec<Machine<S>>,
}

/// Mathematical value of a `FleetGroup`.
pub struct FleetGroupView<S> {
    pub name: Seq<char>,
    pub machines: Seq<MachineView<S>>,
}

impl<S> View for FleetGroup<S> {
    type V = FleetGroupView<S>;

    open spec fn view(&self) -> FleetGroupView<S> {
        FleetGroupView { name: self.name@, machines: self.machines.deep_view() }
    }
}

impl<S> DeepView for FleetGroup<S> {
    type V = FleetGroupView<S>;

    open spec fn deep_view(&self) -> FleetGroupView<S> {
        self@
    }
}

/// The fleet that the workload receives.
#[derive(Debug)]
pub struct Fleet<S> {
    pub groups: Vec<FleetGroup<S>>,
}

impl<S> View for Fleet<S> {
    type V = Seq<FleetGroupView<S>>;

    open spec fn view(&self) -> Seq<FleetGroupView<S>> {
        self.groups.deep_view()
    }
}

impl<S> DeepView for Fleet<S> {
    type V = Seq<FleetGroupView<S>>;

    open spec fn deep_view(&self) -> Seq<FleetGroupView<S>> {
        self@
    }
}

/// Group `i` is the first of the fleet that bears `name`.
pub open spec fn named_at<S>(fleet: Seq<FleetGroupView<S>>, name: Seq<char>, i: int) -> bool {
    &&& 0 <= i < fleet.len()
    &&& fleet[i].name == name
    &&& forall|j: int| 0 <= j < i ==> (#[trigger] fleet[j]).name != name
}

/// The fleet read as a mapping from group name to machines.
pub open spec fn as_map<S>(fleet: Seq<FleetGroupView<S>>) -> Map<Seq<char>, Seq<MachineView<S>>> {
    Map::new(
        |name: Seq<char>| exists|i: int| named_at(fleet, name, i),
        |name: Seq<char>| fleet[choose|i: int| named_at(fleet, name, i)].machines,
    )
}

/// At most one group is the first to bear a name.
pub proof fn lemma_named_at_unique<S>(fleet: Seq<FleetGroupView<S>>, name: Seq<char>, i: int, j: int)
    requires
        named_at(fleet, name, i),
        named_at(fleet, name, j),
    ensures
        i == j,
{
    if i < j {
        assert(fleet[i].name != name);
    } else if j < i {
        assert(fleet[j].name != name);
    }
}

impl<S> Fleet<S> {
    /// A fleet without groups.
    pub fn new() -> (fleet: Self)
        ensures
            fleet@.len() == 0,
    {
        Fleet { groups: Vec::new() }
    }

    /// The number of groups.
    pub fn len(&self) -> (n: usize)
        ensures
            n == self@.len(),
    {
        self.groups.len()
    }

    /// The machines of the group called `name`, if there is such a group.
    pub fn get(&self, name: &str) -> (found: Option<&Vec<Machine<S>>>)
        ensures
            found is Some <==> as_map(self@).dom().contains(name@),
            found is Some ==> found.unwrap().deep_view() == as_map(self@)[name@],
    {
        let wanted = name.to_owned();
        let mut i: usize = 0;
        while i < self.groups.len()
            invariant
                i <= self.groups.len(),
                wanted@ == name@,
                forall|j: int| 0 <= j < i ==> (#[trigger] self@[j]).name != name@,
            decreases self.groups.len() - i,
        {
            if self.groups[i].name == wanted {
                proof {
                    assert(self@[i as int] == self.groups[i as int]@);
                    assert(named_at(self@, name@, i as int));
                    let c = choose|k: int| named_at(self@, name@, k);
                    lemma_named_at_unique(self@, name@, c, i as int);
                }
                return Some(&self.groups[i].machines);
            }
            i += 1;
        }
        proof {
            assert forall|k: int| !named_at(self@, name@, k) by {
                if named_at(self@, name@, k) {
                    assert(self@[k].name != name@);
                }
            }
        }
        None
    }
}

} // verus!

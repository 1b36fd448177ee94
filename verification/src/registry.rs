//! The declarative input of a run: named groups, each with a template and a count.

use crate::error::DuplicateGroupError;
use vstd::prelude::*;

verus! {

/// Template of a group's machines: what to launch and how to set each one up.
///
/// The setup routine is carried as an opaque value; it is handed back to the
/// driver when a machine of the group is to be configured.
pub struct MachineSetup<F> {
    instance_type: String,
    ami: String,
    setup: F,
    key_name: String,
}

/// Mathematical value of a `MachineSetup`.
pub struct MachineSetupView<F> {
    pub instance_type: Seq<char>,
    pub ami: Seq<char>,
    pub setup: F,
    pub key_name: Seq<char>,
}

impl<F> View for MachineSetup<F> {
    type V = MachineSetupView<F>;

    closed spec fn view(&self) -> MachineSetupView<F> {
        MachineSetupView {
            instance_type: self.instance_type@,
            ami: self.ami@,
            setup: self.setup,
            key_name: self.key_name@,
        }
    }
}

impl<F> MachineSetup<F> {
    pub fn new(instance_type: &str, ami: &str, setup: F, key: &str) -> (template: Self)
        ensures
            template@ == (MachineSetupView {
                instance_type: instance_type@,
                ami: ami@,
                setup: setup,
                key_name: key@,
            }),
    {
        MachineSetup {
            instance_type: instance_type.to_owned(),
            ami: ami.to_owned(),
            setup: setup,
            key_name: key.to_owned(),
        }
    }

    pub fn instance_type(&self) -> (kind: &String)
        ensures
            kind@ == self@.instance_type,
    {
        &self.instance_type
    }

    pub fn ami(&self) -> (image: &String)
        ensures
            image@ == self@.ami,
    {
        &self.ami
    }

    pub fn key_name(&self) -> (key: &String)
        ensures
            key@ == self@.key_name,
    {
        &self.key_name
    }

    pub fn setup(&self) -> (routine: &F)
        ensures
            *routine == self@.setup,
    {
        &self.setup
    }
}

/// One entry of the registry.
pub struct Group<F> {
    pub name: String,
    pub number: u16,
    pub setup: MachineSetup<F>,
}

/// Mathematical value of a `Group`.
pub struct GroupView<F> {
    pub name: Seq<char>,
    pub number: u16,
    pub setup: MachineSetupView<F>,
}

impl<F> View for Group<F> {
    type V = GroupView<F>;

    open spec fn view(&self) -> GroupView<F> {
        GroupView { name: self.name@, number: self.number, setup: self.setup@ }
    }
}

impl<F> DeepView for Group<F> {
    type V = GroupView<F>;

    open spec fn deep_view(&self) -> GroupView<F> {
        self@
    }
}

/// No two groups bear the same name.
pub open spec fn distinct_names<F>(groups: Seq<GroupView<F>>) -> bool {
    forall|i: int, j: int|
        0 <= i < groups.len() && 0 <= j < groups.len() && i != j ==> (#[trigger] groups[i]).name
            != (#[trigger] groups[j]).name
}

/// Some group bears this name.
pub open spec fn has_group<F>(groups: Seq<GroupView<F>>, name: Seq<char>) -> bool {
    exists|i: int| 0 <= i < groups.len() && (#[trigger] groups[i]).name == name
}

/// The registry of groups, in the order in which they were added.
pub struct TsunamiBuilder<F> {
    pub(crate) descriptors: Vec<Group<F>>,
    pub(crate) max_duration: i64,
    pub(crate) max_polls: Option<u32>,
}

/// Mathematical value of a `TsunamiBuilder`.
pub struct TsunamiBuilderView<F> {
    pub groups: Seq<GroupView<F>>,
    /// Advisory ceiling on the run's duration, in minutes. Nothing enforces it.
    pub max_duration: int,
    /// Status queries allowed per instance; `None` lets an instance be polled without end.
    pub max_polls: Option<u32>,
}

impl<F> View for TsunamiBuilder<F> {
    type V = TsunamiBuilderView<F>;

    closed spec fn view(&self) -> TsunamiBuilderView<F> {
        TsunamiBuilderView {
            groups: self.descriptors.deep_view(),
            max_duration: self.max_duration as int,
            max_polls: self.max_polls,
        }
    }
}

impl<F> Default for TsunamiBuilder<F> {
    fn default() -> (builder: Self)
        ensures
            builder@ == (TsunamiBuilderView::<F> {
                groups: Seq::empty(),
                max_duration: 60,
                max_polls: None,
            }),
            builder.wf(),
    {
        let builder = TsunamiBuilder { descriptors: Vec::new(), max_duration: 60, max_polls: None };
        assert(builder@.groups =~= Seq::empty());
        builder
    }
}

impl<F> TsunamiBuilder<F> {
    /// Group names are unique.
    pub open spec fn wf(&self) -> bool {
        distinct_names(self@.groups)
    }

    fn position(&self, name: &String) -> (found: Option<usize>)
        ensures
            found is Some ==> found.unwrap() < self@.groups.len() && self@.groups[found.unwrap() as int].name
                == name@,
            found is None ==> !has_group(self@.groups, name@),
    {
        let mut i: usize = 0;
        while i < self.descriptors.len()
            invariant
                i <= self.descriptors.len(),
                forall|j: int| 0 <= j < i ==> (#[trigger] self@.groups[j]).name != name@,
            decreases self.descriptors.len() - i,
        {
            if self.descriptors[i].name == *name {
                return Some(i);
            }
            i += 1;
        }
        None
    }

    /// Registers a group of `number` machines under `name`.
    ///
    /// A name that is already taken is refused, and the registry stays as it was.
    pub fn add_set(&mut self, name: &str, number: u16, setup: MachineSetup<F>) -> (added: Result<
        (),
        DuplicateGroupError,
    >)
        requires
            old(self).wf(),
        ensures
            final(self).wf(),
            has_group(old(self)@.groups, name@) ==> added is Err && added.unwrap_err()@ == name@
                && final(self)@ == old(self)@,
            !has_group(old(self)@.groups, name@) ==> added is Ok && final(self)@ == (
            TsunamiBuilderView {
                groups: old(self)@.groups.push(
                    GroupView { name: name@, number: number, setup: setup@ },
                ),
                ..old(self)@
            }),
    {
        let owned = name.to_owned();
        match self.position(&owned) {
            Some(i) => {
                assert(has_group(old(self)@.groups, name@));
                Err(DuplicateGroupError { name: owned })
            },
            None => {
                self.descriptors.push(Group { name: owned, number: number, setup: setup });
                assert(self@.groups =~= old(self)@.groups.push(
                    GroupView { name: name@, number: number, setup: setup@ },
                ));
                Ok(())
            },
        }
    }

    /// Records the advisory ceiling on the run's duration. It is kept in minutes
    /// and is not enforced.
    pub fn set_max_duration(&mut self, hours: u8)
        ensures
            final(self)@ == (TsunamiBuilderView { max_duration: hours as int * 60, ..old(self)@ }),
    {
        let minutes: i64 = hours as i64 * 60;
        self.max_duration = minutes;
    }

    /// Bounds the wait for readiness: an instance that is still not ready after
    /// `polls` status queries fails the run. Without a bound the wait has no end.
    /// The first query is always made, so a bound of zero acts as a bound of one.
    pub fn set_max_polls(&mut self, polls: u32)
        ensures
            final(self)@ == (TsunamiBuilderView { max_polls: Some(polls), ..old(self)@ }),
    {
        self.max_polls = Some(polls);
    }

    /// Gives up the registry's parts: the groups, the advisory ceiling in
    /// minutes, and the bound on status queries.
    pub fn into_parts(self) -> (parts: (Vec<Group<F>>, i64, Option<u32>))
        ensures
            parts.0.deep_view() == self@.groups,
            parts.1 == self@.max_duration,
            parts.2 == self@.max_polls,
    {
        (self.descriptors, self.max_duration, self.max_polls)
    }

    pub fn max_duration(&self) -> (minutes: i64)
        ensures
            minutes == self@.max_duration,
    {
        self.max_duration
    }

    /// The number of registered groups.
    pub fn len(&self) -> (n: usize)
        ensures
            n == self@.groups.len(),
    {
        self.descriptors.len()
    }
}

} // verus!

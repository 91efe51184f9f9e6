//! Containers of a workload, and a cursor over them.

use vstd::prelude::*;

verus! {

/// What a container is to the bridge: its name and the ports it exposes, in
/// the order in which they were declared.
pub struct ContainerView {
    pub name: Seq<char>,
    pub ports: Seq<i32>,
}

/// A container of a workload, as the cluster reported it.
#[derive(Debug)]
pub struct Container {
    pub name: String,
    pub ports: Vec<i32>,
}

impl View for Container {
    type V = ContainerView;

    open spec fn view(&self) -> ContainerView {
        ContainerView { name: self.name@, ports: self.ports@ }
    }
}

/// The views of a list of containers, in the same order.
pub open spec fn views(containers: Seq<Container>) -> Seq<ContainerView> {
    containers.map_values(|c: Container| c@)
}

/// The names of a list of containers, in the same order.
pub open spec fn names_of(containers: Seq<ContainerView>) -> Seq<Seq<char>> {
    containers.map_values(|c: ContainerView| c.name)
}

/// The position of the last container called `name`, if there is one.
pub open spec fn last_named(containers: Seq<ContainerView>, name: Seq<char>) -> Option<int>
    decreases containers.len(),
{
    if containers.len() == 0 {
        None
    } else if containers.last().name == name {
        Some(containers.len() - 1)
    } else {
        last_named(containers.drop_last(), name)
    }
}

/// The ports of the last container called `name`; `None` where no container
/// has that name. A container without ports gives `Some` of the empty sequence.
pub open spec fn ports_of(containers: Seq<ContainerView>, name: Seq<char>) -> Option<Seq<i32>> {
    match last_named(containers, name) {
        Some(i) => Some(containers[i].ports),
        None => None,
    }
}

/// `last_named` finds a container with the name exactly when one exists, and
/// then no later container has that name.
pub proof fn lemma_last_named(containers: Seq<ContainerView>, name: Seq<char>)
    ensures
        last_named(containers, name) matches Some(i) ==> 0 <= i < containers.len()
            && containers[i].name == name && forall|j: int|
            i < j < containers.len() ==> containers[j].name != name,
        last_named(containers, name) is None ==> forall|j: int|
            0 <= j < containers.len() ==> containers[j].name != name,
    decreases containers.len(),
{
    if containers.len() > 0 && containers.last().name != name {
        let front = containers.drop_last();
        lemma_last_named(front, name);
        assert forall|j: int| 0 <= j < front.len() implies front[j] == containers[j] by {}
    }
}

/// The search finds the position after which the name does not occur.
proof fn lemma_last_named_suffix(containers: Seq<ContainerView>, name: Seq<char>, at: int)
    requires
        0 <= at < containers.len(),
        containers[at].name == name,
        forall|j: int| at < j < containers.len() ==> containers[j].name != name,
    ensures
        last_named(containers, name) == Some(at),
    decreases containers.len(),
{
    if containers.len() - 1 != at {
        lemma_last_named_suffix(containers.drop_last(), name, at);
    }
}

/// No search finds a name that no container has.
proof fn lemma_last_named_absent(containers: Seq<ContainerView>, name: Seq<char>)
    requires
        forall|j: int| 0 <= j < containers.len() ==> containers[j].name != name,
    ensures
        last_named(containers, name) is None,
    decreases containers.len(),
{
    if containers.len() > 0 {
        lemma_last_named_absent(containers.drop_last(), name);
    }
}

/// A container that exposes no port is found, with an empty list of ports,
/// while a name that no container has finds nothing: the two answers differ.
pub proof fn law_no_ports_differs_from_no_container(
    containers: Seq<ContainerView>,
    present: Seq<char>,
    absent: Seq<char>,
)
    requires
        exists|k: int| 0 <= k < containers.len() && containers[k].name == present,
        forall|k: int|
            0 <= k < containers.len() && containers[k].name == present
                ==> containers[k].ports.len() == 0,
        forall|k: int| 0 <= k < containers.len() ==> containers[k].name != absent,
    ensures
        ports_of(containers, present) == Some(Seq::<i32>::empty()),
        ports_of(containers, absent) is None,
{
    lemma_last_named(containers, present);
    lemma_last_named(containers, absent);
}

impl Container {
    /// A container record from what the cluster reports: a container for which
    /// no port list is reported exposes no port.
    pub fn new(name: String, ports: Option<Vec<i32>>) -> (c: Container)
        ensures
            c@.name == name@,
            c@.ports == match ports {
                Some(p) => p@,
                None => Seq::<i32>::empty(),
            },
    {
        match ports {
            Some(p) => Container { name, ports: p },
            None => Container { name, ports: Vec::new() },
        }
    }
}

impl Clone for Container {
    fn clone(&self) -> (c: Container)
        ensures
            c@ == self@,
    {
        Container { name: self.name.clone(), ports: copy_ports(&self.ports) }
    }
}

/// A copy of a list of ports.
pub fn copy_ports(ports: &Vec<i32>) -> (out: Vec<i32>)
    ensures
        out@ == ports@,
{
    let mut out: Vec<i32> = Vec::new();
    let mut i: usize = 0;
    while i < ports.len()
        invariant
            i <= ports.len(),
            out@ == ports@.take(i as int),
        decreases ports.len() - i,
    {
        out.push(ports[i]);
        i += 1;
    }
    out
}

/// A copy of a list of containers.
pub fn copy_containers(containers: &Vec<Container>) -> (out: Vec<Container>)
    ensures
        views(out@) == views(containers@),
{
    let mut out: Vec<Container> = Vec::new();
    let mut i: usize = 0;
    while i < containers.len()
        invariant
            i <= containers.len(),
            out.len() == i,
            forall|k: int| 0 <= k < i ==> out[k]@ == containers[k]@,
        decreases containers.len() - i,
    {
        let c = containers[i].clone();
        out.push(c);
        i += 1;
    }
    out
}

/// The names of the containers, in order.
pub fn container_names(containers: &Vec<Container>) -> (names: Vec<String>)
    ensures
        names@.map_values(|s: String| s@) == names_of(views(containers@)),
        names.len() == containers.len(),
{
    let mut names: Vec<String> = Vec::new();
    let mut i: usize = 0;
    while i < containers.len()
        invariant
            i <= containers.len(),
            names.len() == i,
            forall|k: int| 0 <= k < i ==> names[k]@ == containers[k].name@,
        decreases containers.len() - i,
    {
        names.push(containers[i].name.clone());
        i += 1;
    }
    names
}

/// The position of the last container called `name`.
pub fn find_container(containers: &Vec<Container>, name: &String) -> (found: Option<usize>)
    ensures
        match found {
            Some(i) => i < containers.len() && last_named(views(containers@), name@) == Some(
                i as int,
            ),
            None => last_named(views(containers@), name@) is None,
        },
{
    let mut i: usize = containers.len();
    while i > 0
        invariant
            i <= containers.len(),
            forall|j: int| i <= j < containers.len() ==> views(containers@)[j].name != name@,
        decreases i,
    {
        i -= 1;
        if containers[i].name == *name {
            proof {
                lemma_last_named_suffix(views(containers@), name@, i as int);
            }
            return Some(i);
        }
    }
    proof {
        lemma_last_named_absent(views(containers@), name@);
    }
    None
}

/// A list of containers with at most one of them selected.
pub struct ContainerWrapperView {
    pub containers: Seq<ContainerView>,
    /// The position of the selected container.
    pub selected: Option<int>,
}

impl ContainerWrapperView {
    /// The cursor after `name` was asked for: it moves to the last container
    /// of that name, and stays where it was if there is none.
    pub open spec fn select(self, name: Seq<char>) -> ContainerWrapperView {
        match last_named(self.containers, name) {
            Some(i) => ContainerWrapperView { selected: Some(i), ..self },
            None => self,
        }
    }

    /// The ports of the selected container.
    pub open spec fn ports(self) -> Option<Seq<i32>> {
        match self.selected {
            Some(i) => Some(self.containers[i].ports),
            None => None,
        }
    }
}

/// The containers of one workload, and the cursor on one of them.
pub struct ContainerWrapper {
    containers: Vec<Container>,
    container: Option<usize>,
}

impl View for ContainerWrapper {
    type V = ContainerWrapperView;

    closed spec fn view(&self) -> ContainerWrapperView {
        ContainerWrapperView {
            containers: views(self.containers@),
            selected: match self.container {
                Some(i) => Some(i as int),
                None => None,
            },
        }
    }
}

impl ContainerWrapper {
    #[verifier::type_invariant]
    spec fn selection_in_range(self) -> bool {
        self.container matches Some(i) ==> i < self.containers.len()
    }

    /// Whether the cursor, if set, points at one of the containers. It holds of
    /// every wrapper that this module hands out.
    pub open spec fn wf(self) -> bool {
        self@.selected matches Some(i) ==> 0 <= i < self@.containers.len()
    }

    /// The given containers, with none selected.
    pub fn new(containers: Vec<Container>) -> (w: ContainerWrapper)
        ensures
            w@.containers == views(containers@),
            w@.selected is None,
            w.wf(),
    {
        ContainerWrapper { containers, container: None }
    }

    /// Moves the cursor to the last container called `name`. A name that no
    /// container has leaves the cursor where it was.
    pub fn set_selected_container(&mut self, name: String) -> (ret: &mut Self)
        ensures
            ret@ == old(self)@.select(name@),
            ret.wf(),
            *final(self) == *final(ret),
    {
        proof {
            use_type_invariant(&*self);
        }
        let found = find_container(&self.containers, &name);
        if let Some(i) = found {
            self.container = Some(i);
        }
        self
    }

    /// The ports of the selected container, in the order of their declaration;
    /// `None` while no container is selected.
    pub fn get_port_for_container(&self) -> (ports: Option<Vec<i32>>)
        ensures
            self.wf(),
            match ports {
                Some(p) => self@.ports() == Some(p@),
                None => self@.ports() is None,
            },
    {
        proof {
            use_type_invariant(self);
        }
        match self.container {
            Some(i) => Some(copy_ports(&self.containers[i].ports)),
            None => None,
        }
    }

    /// The names of all containers, in order.
    pub fn get_containers_name(&self) -> (names: Vec<String>)
        ensures
            names@.map_values(|s: String| s@) == names_of(self@.containers),
        names.len() == self@.containers.len(),
    {
        container_names(&self.containers)
    }
}

impl Default for ContainerWrapper {
    fn default() -> (w: ContainerWrapper)
        ensures
            w@.containers == Seq::<ContainerView>::empty(),
            w@.selected is None,
    {
        ContainerWrapper { containers: Vec::new(), container: None }
    }
}

} // verus!

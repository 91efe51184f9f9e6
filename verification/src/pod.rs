//! The workloads of a namespace, and the selection made among them.

use crate::container::{
    copy_containers, find_container, copy_ports, names_of, ports_of, views, Container,
    ContainerView, ContainerWrapper,
};
use crate::error::{KubeErr, TunnelError};
use crate::tunnel::{Stage, Tunnel};
use vstd::prelude::*;

verus! {

/// What a workload is to the bridge: its name and its containers.
pub struct PodView {
    pub name: Seq<char>,
    pub containers: Seq<ContainerView>,
}

/// A workload, as the cluster reported it.
#[derive(Debug)]
pub struct Pod {
    pub name: String,
    pub containers: Vec<Container>,
}

impl View for Pod {
    type V = PodView;

    open spec fn view(&self) -> PodView {
        PodView { name: self.name@, containers: views(self.containers@) }
    }
}

impl Pod {
    /// A workload record from what the cluster reports: a workload for which
    /// no specification is reported has no container.
    pub fn new(name: String, containers: Option<Vec<Container>>) -> (p: Pod)
        ensures
            p@.name == name@,
            p@.containers == match containers {
                Some(c) => views(c@),
                None => Seq::<ContainerView>::empty(),
            },
    {
        match containers {
            Some(c) => Pod { name, containers: c },
            None => Pod { name, containers: Vec::new() },
        }
    }
}

/// The views of a list of workloads, in the same order.
pub open spec fn pod_views(pods: Seq<Pod>) -> Seq<PodView> {
    pods.map_values(|p: Pod| p@)
}

/// The position of the first workload called `name`, if there is one.
pub open spec fn first_named(pods: Seq<PodView>, name: Seq<char>) -> Option<int>
    decreases pods.len(),
{
    if pods.len() == 0 {
        None
    } else {
        match first_named(pods.drop_last(), name) {
            Some(i) => Some(i),
            None => if pods.last().name == name {
                Some(pods.len() - 1)
            } else {
                None
            },
        }
    }
}

/// `first_named` finds a workload with the name exactly when one exists, and
/// then no earlier workload has that name.
pub proof fn lemma_first_named(pods: Seq<PodView>, name: Seq<char>)
    ensures
        first_named(pods, name) matches Some(i) ==> 0 <= i < pods.len() && pods[i].name == name
            && forall|j: int| 0 <= j < i ==> pods[j].name != name,
        first_named(pods, name) is None ==> forall|j: int|
            0 <= j < pods.len() ==> pods[j].name != name,
    decreases pods.len(),
{
    if pods.len() > 0 {
        let front = pods.drop_last();
        lemma_first_named(front, name);
        assert forall|j: int| 0 <= j < front.len() implies front[j] == pods[j] by {}
    }
}

/// The search finds the position before which the name does not occur.
pub proof fn lemma_first_named_at(pods: Seq<PodView>, name: Seq<char>, at: int)
    requires
        0 <= at < pods.len(),
        pods[at].name == name,
        forall|j: int| 0 <= j < at ==> pods[j].name != name,
    ensures
        first_named(pods, name) == Some(at),
    decreases pods.len(),
{
    let front = pods.drop_last();
    assert forall|j: int| 0 <= j < front.len() implies front[j] == pods[j] by {}
    if pods.len() - 1 == at {
        lemma_first_named(front, name);
    } else {
        lemma_first_named_at(front, name, at);
    }
}

/// The search finds nothing where the name does not occur.
pub proof fn lemma_first_named_absent(pods: Seq<PodView>, name: Seq<char>)
    requires
        forall|j: int| 0 <= j < pods.len() ==> pods[j].name != name,
    ensures
        first_named(pods, name) is None,
    decreases pods.len(),
{
    if pods.len() > 0 {
        let front = pods.drop_last();
        assert forall|j: int| 0 <= j < front.len() implies front[j] == pods[j] by {}
        lemma_first_named_absent(front, name);
    }
}

/// The position of the first workload called `name`.
pub fn find_pod(pods: &Vec<Pod>, name: &String) -> (found: Option<usize>)
    ensures
        match found {
            Some(i) => i < pods.len() && first_named(pod_views(pods@), name@) == Some(i as int),
            None => first_named(pod_views(pods@), name@) is None,
        },
{
    let mut i: usize = 0;
    while i < pods.len()
        invariant
            i <= pods.len(),
            forall|j: int| 0 <= j < i ==> pod_views(pods@)[j].name != name@,
        decreases pods.len() - i,
    {
        if pods[i].name == *name {
            proof {
                lemma_first_named_at(pod_views(pods@), name@, i as int);
            }
            return Some(i);
        }
        i += 1;
    }
    proof {
        lemma_first_named_absent(pod_views(pods@), name@);
    }
    None
}

/// The workloads fetched for a namespace, with at most one of them selected.
pub struct PodsListView {
    pub namespace: Seq<char>,
    pub pods: Seq<PodView>,
    /// The position of the selected workload.
    pub selected: Option<int>,
}

impl PodsListView {
    /// Whether the selection, if any, points at one of the workloads.
    pub open spec fn wf(self) -> bool {
        self.selected matches Some(i) ==> 0 <= i < self.pods.len()
    }

    /// The names of the workloads, in the order in which they were fetched.
    pub open spec fn names(self) -> Seq<Seq<char>> {
        self.pods.map_values(|p: PodView| p.name)
    }

    /// The list after `name` was asked for: the selection moves to the first
    /// workload of that name, and stays where it was if there is none.
    pub open spec fn select(self, name: Seq<char>) -> PodsListView {
        match first_named(self.pods, name) {
            Some(i) => PodsListView { selected: Some(i), ..self },
            None => self,
        }
    }

    /// The containers of the selected workload; none while nothing is selected.
    pub open spec fn containers(self) -> Seq<ContainerView> {
        match self.selected {
            Some(i) => self.pods[i].containers,
            None => Seq::empty(),
        }
    }

    /// The name of the selected workload.
    pub open spec fn selected_name(self) -> Option<Seq<char>> {
        match self.selected {
            Some(i) => Some(self.pods[i].name),
            None => None,
        }
    }

    /// The ports of the container `name` of the selected workload.
    pub open spec fn ports_for(self, name: Seq<char>) -> Option<Seq<i32>> {
        ports_of(self.containers(), name)
    }
}

/// The selected workload: its position, and its containers, listed when the
/// selection was made.
struct Selected {
    index: usize,
    container_wrapper: ContainerWrapper,
}

/// The workloads of one namespace, fetched once, and the selection among them.
pub struct PodsList {
    namespace: String,
    pods: Vec<Pod>,
    selected_pod: Option<Selected>,
}

impl View for PodsList {
    type V = PodsListView;

    closed spec fn view(&self) -> PodsListView {
        PodsListView {
            namespace: self.namespace@,
            pods: pod_views(self.pods@),
            selected: match self.selected_pod {
                Some(s) => Some(s.index as int),
                None => None,
            },
        }
    }
}

impl PodsList {
    /// The selection points at a workload, and the container list that is kept
    /// beside it is the one of that workload.
    #[verifier::type_invariant]
    spec fn coherent(self) -> bool {
        self.selected_pod matches Some(s) ==> s.index < self.pods.len()
            && s.container_wrapper@.containers == pod_views(self.pods@)[s.index as int].containers
    }

    /// A list of the workloads fetched for `namespace`, with none selected.
    pub fn new(namespace: String, pods: Vec<Pod>) -> (list: PodsList)
        ensures
            list@.namespace == namespace@,
            list@.pods == pod_views(pods@),
            list@.selected is None,
    {
        PodsList { namespace, pods, selected_pod: None }
    }

    /// The names of the workloads, in the order in which they were fetched.
    pub fn get_pod_name_list(&self) -> (names: Vec<String>)
        ensures
            names@.map_values(|s: String| s@) == self@.names(),
            names.len() == self@.pods.len(),
    {
        let mut names: Vec<String> = Vec::new();
        let mut i: usize = 0;
        while i < self.pods.len()
            invariant
                i <= self.pods.len(),
                names.len() == i,
                forall|k: int| 0 <= k < i ==> names[k]@ == self.pods[k].name@,
            decreases self.pods.len() - i,
        {
            names.push(self.pods[i].name.clone());
            i += 1;
        }
        names
    }

    /// Selects the first workload called `pod_name` and says whether there is
    /// one. A name that no workload has changes nothing.
    pub fn select(&mut self, pod_name: &String) -> (found: bool)
        ensures
            final(self)@ == old(self)@.select(pod_name@),
            found == first_named(old(self)@.pods, pod_name@).is_some(),
            final(self)@.wf(),
    {
        proof {
            use_type_invariant(&*self);
        }
        match find_pod(&self.pods, pod_name) {
            Some(i) => {
                let containers = copy_containers(&self.pods[i].containers);
                self.selected_pod = Some(
                    Selected { index: i, container_wrapper: ContainerWrapper::new(containers) },
                );
                true
            },
            None => false,
        }
    }

    /// Selects the first workload called `pod_name`, as `select` does, and
    /// hands the list back for the next call.
    pub fn set_selected_pod(&mut self, pod_name: String) -> (ret: &mut Self)
        ensures
            ret@ == old(self)@.select(pod_name@),
            ret@.wf(),
            *final(self) == *final(ret),
    {
        self.select(&pod_name);
        self
    }

    /// The names of the containers of the selected workload, in order; empty
    /// while nothing is selected.
    pub fn list_containers(&self) -> (names: Vec<String>)
        ensures
            names@.map_values(|s: String| s@) == names_of(self@.containers()),
            names.len() == self@.containers().len(),
            self@.wf(),
    {
        proof {
            use_type_invariant(self);
        }
        match &self.selected_pod {
            Some(s) => s.container_wrapper.get_containers_name(),
            None => Vec::new(),
        }
    }

    /// The ports that the container `selected_container` of the selected
    /// workload exposes, in the order of their declaration. `None` while no
    /// workload is selected and where the workload has no such container.
    pub fn get_port_for_container(&self, selected_container: String) -> (ports: Option<Vec<i32>>)
        ensures
            self@.wf(),
            match ports {
                Some(p) => self@.ports_for(selected_container@) == Some(p@),
                None => self@.ports_for(selected_container@) is None,
            },
    {
        proof {
            use_type_invariant(self);
        }
        match &self.selected_pod {
            Some(s) => {
                let containers = &self.pods[s.index].containers;
                match find_container(containers, &selected_container) {
                    Some(k) => Some(copy_ports(&containers[k].ports)),
                    None => None,
                }
            },
            None => None,
        }
    }

    /// Begins the tunnel from `user_port` of the local machine to
    /// `selected_port` of the selected workload. While no workload is selected
    /// there is nothing to reach, and no tunnel is begun.
    pub fn expose_pod(&self, selected_port: u16, user_port: u16) -> (tunnel: Result<
        Tunnel,
        KubeErr,
    >)
        ensures
            self@.wf(),
            match tunnel {
                Ok(t) => self@.selected_name() == Some(t.pod()) && t.namespace()
                    == self@.namespace && t.selected_port() == selected_port && t.user_port()
                    == user_port && t.stage() == Stage::Opening && t.failure() is None,
                Err(e) => self@.selected is None && e == KubeErr::Tunnel(TunnelError::NoSelection),
            },
    {
        match self.selected_pod_name() {
            Some(pod) => Ok(Tunnel::new(pod, self.namespace(), selected_port, user_port)),
            None => Err(KubeErr::Tunnel(TunnelError::NoSelection)),
        }
    }

    /// The name of the selected workload.
    pub fn selected_pod_name(&self) -> (name: Option<String>)
        ensures
            self@.wf(),
            match name {
                Some(n) => self@.selected_name() == Some(n@),
                None => self@.selected_name() is None,
            },
    {
        proof {
            use_type_invariant(self);
        }
        match &self.selected_pod {
            Some(s) => Some(self.pods[s.index].name.clone()),
            None => None,
        }
    }

    /// The namespace that the workloads were fetched for.
    pub fn namespace(&self) -> (ns: String)
        ensures
            ns@ == self@.namespace,
    {
        self.namespace.clone()
    }
}

/// There is one name for each workload, and the names come in the order in
/// which the workloads were fetched.
pub proof fn law_names_follow_fetch_order(list: PodsListView)
    ensures
        list.names().len() == list.pods.len(),
        forall|i: int| 0 <= i < list.pods.len() ==> list.names()[i] == list.pods[i].name,
{
}

/// Asking for a name that no workload has changes nothing: the selection and
/// the containers listed for it stay as they were.
pub proof fn law_unknown_name_changes_nothing(list: PodsListView, name: Seq<char>)
    requires
        forall|i: int| 0 <= i < list.pods.len() ==> list.pods[i].name != name,
    ensures
        list.select(name) == list,
        list.select(name).containers() == list.containers(),
        list.select(name).select(name) == list,
{
    lemma_first_named_absent(list.pods, name);
}

/// After one workload was selected and then another, every question about
/// ports is answered from the containers of the second alone.
pub proof fn law_later_selection_replaces_earlier(
    list: PodsListView,
    first: Seq<char>,
    second: Seq<char>,
    container: Seq<char>,
)
    requires
        exists|i: int| 0 <= i < list.pods.len() && list.pods[i].name == second,
    ensures
        list.select(first).select(second) == list.select(second),
        first_named(list.pods, second) matches Some(at) && list.select(first).select(
            second,
        ).containers() == list.pods[at].containers && list.select(first).select(second).ports_for(
            container,
        ) == ports_of(list.pods[at].containers, container),
{
    lemma_first_named(list.pods, second);
}

/// Of the selected workload, a container that exposes no port answers with an
/// empty list, and a name that none of its containers has answers with nothing.
pub proof fn law_no_ports_differs_from_no_container(
    list: PodsListView,
    present: Seq<char>,
    absent: Seq<char>,
)
    requires
        list.wf(),
        list.selected is Some,
        exists|k: int| 0 <= k < list.containers().len() && list.containers()[k].name == present,
        forall|k: int|
            0 <= k < list.containers().len() && list.containers()[k].name == present
                ==> list.containers()[k].ports.len() == 0,
        forall|k: int| 0 <= k < list.containers().len() ==> list.containers()[k].name != absent,
    ensures
        list.ports_for(present) == Some(Seq::<i32>::empty()),
        list.ports_for(absent) is None,
{
    crate::container::law_no_ports_differs_from_no_container(list.containers(), present, absent);
}

} // verus!

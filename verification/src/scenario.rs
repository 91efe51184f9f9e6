//! The questions that lead from the workloads of a namespace to one port to
//! forward. Each step holds what is asked next; the caller puts the question to
//! the user and hands the answer to the step, which decides what follows.

use crate::container::names_of;
use crate::error::KubeErr;
use crate::pod::PodsList;
use crate::port::{parse_port, port_of, remote_port, wire_port};
use inquire::error::InquireError;
use vstd::prelude::*;
use vstd::string::*;

verus! {

pub const SELECT_CONTEXT: &'static str = "Kubernetes context";

pub const SELECT_NS: &'static str = "Select which namespace you want to use";

pub const POD_SELECT_PROMPT: &'static str = "Select which pod you want to connect with";

pub const CONTAINER_SELECT_PROMPT: &'static str = "Select which container you want to port forward";

pub const SELECTED_PORT: &'static str = "Select which port to expose";

pub const USER_PORT: &'static str = "Input which port you want to use";

/// The views of a list of names.
pub open spec fn texts(names: Seq<String>) -> Seq<Seq<char>> {
    names.map_values(|s: String| s@)
}

/// Whether `e` reports the failed prompt `cause`, with the prompt's own text.
pub open spec fn reports_prompt(e: KubeErr, cause: InquireError) -> bool {
    e matches KubeErr::Prompt(msg) && to_string_from_display_ensures(&cause, msg)
}

/// The workload is to be chosen among `options`.
pub struct PodChoice {
    pub pods: PodsList,
    pub options: Vec<String>,
}

/// The container of the selected workload is to be chosen among `options`.
pub struct ContainerChoice {
    pub pods: PodsList,
    pub options: Vec<String>,
}

/// The port of the selected container is to be chosen among `options`.
pub struct PortChoice {
    pub pods: PodsList,
    pub options: Vec<i32>,
}

/// The local port is to be typed in.
pub struct LocalPortQuestion {
    pub pods: PodsList,
    pub selected_port: i32,
}

/// Everything is chosen: `selected_port` of the selected workload is to be
/// reached at `user_port` of the local machine.
pub struct Forward {
    pub pods: PodsList,
    pub selected_port: u16,
    pub user_port: u16,
}

/// Begins the questions: the workload is asked for among all that were
/// fetched. A namespace without workloads ends them at once.
pub fn trigger_scenario(pods: PodsList) -> (step: Result<PodChoice, KubeErr>)
    ensures
        match step {
            Ok(choice) => pods@.pods.len() > 0 && choice.pods@ == pods@ && texts(choice.options@)
                == pods@.names(),
            Err(e) => pods@.pods.len() == 0 && (e matches KubeErr::EmptyPods(ns) && ns@
                == pods@.namespace),
        },
{
    let options = pods.get_pod_name_list();
    if options.len() == 0 {
        return Err(KubeErr::EmptyPods(pods.namespace()));
    }
    Ok(PodChoice { pods, options })
}

impl PodChoice {
    /// Takes the name of the workload that the user chose and asks for one of
    /// its containers. A failed prompt ends the questions, and so does a
    /// workload without containers; a name that no workload has selects nothing.
    pub fn answer(self, answer: Result<String, InquireError>) -> (step: Result<
        ContainerChoice,
        KubeErr,
    >)
        ensures
            match (answer, step) {
                (Err(cause), Ok(_)) => false,
                (Err(cause), Err(e)) => reports_prompt(e, cause),
                (Ok(name), Ok(choice)) => choice.pods@ == self.pods@.select(name@) && texts(
                    choice.options@,
                ) == names_of(choice.pods@.containers()) && choice.options.len() > 0,
                (Ok(name), Err(e)) => e is EmptyContainers && self.pods@.select(
                    name@,
                ).containers().len() == 0,
            },
    {
        let mut pods = self.pods;
        match answer {
            Err(cause) => Err(KubeErr::from_prompt(&cause)),
            Ok(name) => {
                pods.select(&name);
                let options = pods.list_containers();
                if options.len() == 0 {
                    return Err(KubeErr::EmptyContainers);
                }
                Ok(ContainerChoice { pods, options })
            },
        }
    }
}

impl ContainerChoice {
    /// Takes the name of the container that the user chose and asks for one of
    /// its ports. A failed prompt ends the questions, and so does a container
    /// that is not there or exposes no port.
    pub fn answer(self, answer: Result<String, InquireError>) -> (step: Result<PortChoice, KubeErr>)
        ensures
            match (answer, step) {
                (Err(cause), Ok(_)) => false,
                (Err(cause), Err(e)) => reports_prompt(e, cause),
                (Ok(name), Ok(choice)) => choice.pods@ == self.pods@ && self.pods@.ports_for(name@)
                    == Some(choice.options@) && choice.options.len() > 0,
                (Ok(name), Err(e)) => e is EmptyPorts && match self.pods@.ports_for(name@) {
                    Some(ports) => ports.len() == 0,
                    None => true,
                },
            },
    {
        match answer {
            Err(cause) => Err(KubeErr::from_prompt(&cause)),
            Ok(name) => {
                match self.pods.get_port_for_container(name) {
                    Some(options) => {
                        if options.len() == 0 {
                            return Err(KubeErr::EmptyPorts);
                        }
                        Ok(PortChoice { pods: self.pods, options })
                    },
                    None => Err(KubeErr::EmptyPorts),
                }
            },
        }
    }
}

impl PortChoice {
    /// Takes the port that the user chose and asks for the local port. A failed
    /// prompt ends the questions.
    pub fn answer(self, answer: Result<i32, InquireError>) -> (step: Result<
        LocalPortQuestion,
        KubeErr,
    >)
        ensures
            match (answer, step) {
                (Err(cause), Ok(_)) => false,
                (Err(cause), Err(e)) => reports_prompt(e, cause),
                (Ok(port), Ok(question)) => question.pods@ == self.pods@ && question.selected_port
                    == port,
                (Ok(port), Err(e)) => false,
            },
    {
        match answer {
            Err(cause) => Err(KubeErr::from_prompt(&cause)),
            Ok(port) => Ok(LocalPortQuestion { pods: self.pods, selected_port: port }),
        }
    }
}

impl LocalPortQuestion {
    /// Takes the text that the user typed for the local port. A failed prompt
    /// ends the questions, and so does a text that names no port.
    pub fn answer(self, answer: Result<String, InquireError>) -> (step: Result<Forward, KubeErr>)
        ensures
            match (answer, step) {
                (Err(cause), Ok(_)) => false,
                (Err(cause), Err(e)) => reports_prompt(e, cause),
                (Ok(text), Ok(forward)) => forward.pods@ == self.pods@ && forward.selected_port
                    == wire_port(self.selected_port) && port_of(text@) == Some(forward.user_port),
                (Ok(text), Err(e)) => e is WrongPort && port_of(text@) is None,
            },
    {
        match answer {
            Err(cause) => Err(KubeErr::from_prompt(&cause)),
            Ok(text) => {
                match parse_port(text.as_str()) {
                    Ok(user_port) => Ok(
                        Forward {
                            pods: self.pods,
                            selected_port: remote_port(self.selected_port),
                            user_port,
                        },
                    ),
                    Err(e) => Err(e),
                }
            },
        }
    }
}

} // verus!

//! The closed error taxonomy of the bridge, and the text shown for each error.

use vstd::prelude::*;
use vstd::string::*;

verus! {

/// `hyper::Error`, the error of the HTTP connection: carried through and
/// rendered as text, never looked into.
#[verifier::external_type_specification]
#[verifier::external_body]
pub struct ExHyperError(hyper::Error);

/// `inquire::error::InquireError`, the error of a prompt: carried through and
/// rendered as text, never looked into.
#[verifier::external_type_specification]
#[verifier::external_body]
pub struct ExInquireError(inquire::error::InquireError);

/// `kube::error::Error`, the error of the cluster client: carried through and
/// rendered as text, never looked into.
#[verifier::external_type_specification]
#[verifier::external_body]
pub struct ExKubeError(kube::error::Error);

/// `kube::config::KubeconfigError`, the error of reading the cluster
/// configuration: carried through and rendered as text, never looked into.
#[verifier::external_type_specification]
#[verifier::external_body]
pub struct ExKubeconfigError(kube::config::KubeconfigError);

/// Why a tunnel to a workload could not be set up.
#[derive(Debug)]
pub enum TunnelError {
    /// No workload was selected before the tunnel was asked for.
    NoSelection,
    /// The cluster could not produce a byte stream for the requested port:
    /// with the cluster's own text where the request for it failed.
    StreamUnavailable(Option<String>),
    /// The HTTP/1.1 handshake over the byte stream did not complete.
    HandshakeFailed(String),
    /// The local listener could not be bound.
    BindFailed(String),
}

/// The four families an error belongs to.
#[derive(Debug, Clone, Copy, PartialEq, Eq, Structural)]
pub enum ErrorKind {
    Configuration,
    Selection,
    Tunnel,
    Network,
}

/// Everything that can end the bridge.
#[derive(Debug)]
pub enum KubeErr {
    Kubeconfig(String),
    Kube(String),
    Prompt(String),
    EmptyPods(String),
    EmptyContainers,
    EmptyPorts,
    WrongPort,
    Network(String),
    Tunnel(TunnelError),
}

impl TunnelError {
    /// Whether `other` is the same error with the same text.
    pub open spec fn same(self, other: TunnelError) -> bool {
        match (self, other) {
            (TunnelError::NoSelection, TunnelError::NoSelection) => true,
            (TunnelError::StreamUnavailable(None), TunnelError::StreamUnavailable(None)) => true,
            (
                TunnelError::StreamUnavailable(Some(a)),
                TunnelError::StreamUnavailable(Some(b)),
            ) => a@ == b@,
            (TunnelError::HandshakeFailed(a), TunnelError::HandshakeFailed(b)) => a@ == b@,
            (TunnelError::BindFailed(a), TunnelError::BindFailed(b)) => a@ == b@,
            _ => false,
        }
    }

    /// The text shown for this error.
    pub open spec fn text(self) -> Seq<char> {
        match self {
            TunnelError::NoSelection => "No pod has been selected"@,
            TunnelError::StreamUnavailable(None) => "Could not open a stream to the selected port"@,
            TunnelError::StreamUnavailable(Some(msg)) =>
                "Could not open a stream to the selected port: "@ + msg@,
            TunnelError::HandshakeFailed(msg) => "Handshake with the pod failed: "@ + msg@,
            TunnelError::BindFailed(msg) => "Could not bind the local port: "@ + msg@,
        }
    }

    /// The text shown for this error.
    pub fn message(&self) -> (out: String)
        ensures
            out@ == self.text(),
    {
        match self {
            TunnelError::NoSelection => String::from_str("No pod has been selected"),
            TunnelError::StreamUnavailable(None) => String::from_str(
                "Could not open a stream to the selected port",
            ),
            TunnelError::StreamUnavailable(Some(msg)) => String::from_str(
                "Could not open a stream to the selected port: ",
            ).concat(msg.as_str()),
            TunnelError::HandshakeFailed(msg) => String::from_str(
                "Handshake with the pod failed: ",
            ).concat(msg.as_str()),
            TunnelError::BindFailed(msg) => String::from_str(
                "Could not bind the local port: ",
            ).concat(msg.as_str()),
        }
    }
}

impl Clone for TunnelError {
    fn clone(&self) -> (copy: TunnelError)
        ensures
            copy.same(*self),
    {
        match self {
            TunnelError::NoSelection => TunnelError::NoSelection,
            TunnelError::StreamUnavailable(None) => TunnelError::StreamUnavailable(None),
            TunnelError::StreamUnavailable(Some(msg)) => TunnelError::StreamUnavailable(
                Some(msg.clone()),
            ),
            TunnelError::HandshakeFailed(msg) => TunnelError::HandshakeFailed(msg.clone()),
            TunnelError::BindFailed(msg) => TunnelError::BindFailed(msg.clone()),
        }
    }
}

impl KubeErr {
    /// The text shown for this error.
    pub open spec fn text(self) -> Seq<char> {
        match self {
            KubeErr::Kubeconfig(msg) => "Error while reading Kubeconfig: "@ + msg@,
            KubeErr::Kube(msg) => "Error while querying with kubernetes "@ + msg@,
            KubeErr::Prompt(msg) => "Something unexpected happened with the prompt: "@ + msg@,
            KubeErr::EmptyPods(ns) => "Could not found pod in the selected context and namespace: "@
                + ns@,
            KubeErr::EmptyContainers => "The pod does not contain any container !"@,
            KubeErr::EmptyPorts => "The selected container does not have any exposed ports"@,
            KubeErr::WrongPort => "The input port is not a numeric value"@,
            KubeErr::Network(msg) => "Error while sending / receiving data with pod "@ + msg@,
            KubeErr::Tunnel(err) => err.text(),
        }
    }

    /// The family of this error. Of the errors that are reported while the
    /// tunnel is set up, a missing selection is a selection error and a failure
    /// to bind the local port is a network error.
    pub open spec fn kind(self) -> ErrorKind {
        match self {
            KubeErr::Kubeconfig(_) | KubeErr::Kube(_) => ErrorKind::Configuration,
            KubeErr::Prompt(_)
            | KubeErr::EmptyPods(_)
            | KubeErr::EmptyContainers
            | KubeErr::EmptyPorts
            | KubeErr::WrongPort
            | KubeErr::Tunnel(TunnelError::NoSelection) => ErrorKind::Selection,
            KubeErr::Network(_) | KubeErr::Tunnel(TunnelError::BindFailed(_)) => ErrorKind::Network,
            KubeErr::Tunnel(_) => ErrorKind::Tunnel,
        }
    }

    /// The text shown for this error.
    pub fn message(&self) -> (out: String)
        ensures
            out@ == self.text(),
    {
        match self {
            KubeErr::Kubeconfig(msg) => String::from_str("Error while reading Kubeconfig: ").concat(
                msg.as_str(),
            ),
            KubeErr::Kube(msg) => String::from_str("Error while querying with kubernetes ").concat(
                msg.as_str(),
            ),
            KubeErr::Prompt(msg) => String::from_str(
                "Something unexpected happened with the prompt: ",
            ).concat(msg.as_str()),
            KubeErr::EmptyPods(ns) => String::from_str(
                "Could not found pod in the selected context and namespace: ",
            ).concat(ns.as_str()),
            KubeErr::EmptyContainers => String::from_str("The pod does not contain any container !"),
            KubeErr::EmptyPorts => String::from_str(
                "The selected container does not have any exposed ports",
            ),
            KubeErr::WrongPort => String::from_str("The input port is not a numeric value"),
            KubeErr::Network(msg) => String::from_str(
                "Error while sending / receiving data with pod ",
            ).concat(msg.as_str()),
            KubeErr::Tunnel(err) => err.message(),
        }
    }

    /// The family of this error.
    pub fn category(&self) -> (kind: ErrorKind)
        ensures
            kind == self.kind(),
    {
        match self {
            KubeErr::Kubeconfig(_) | KubeErr::Kube(_) => ErrorKind::Configuration,
            KubeErr::Prompt(_)
            | KubeErr::EmptyPods(_)
            | KubeErr::EmptyContainers
            | KubeErr::EmptyPorts
            | KubeErr::WrongPort
            | KubeErr::Tunnel(TunnelError::NoSelection) => ErrorKind::Selection,
            KubeErr::Network(_) | KubeErr::Tunnel(TunnelError::BindFailed(_)) => ErrorKind::Network,
            KubeErr::Tunnel(_) => ErrorKind::Tunnel,
        }
    }

    /// A failure to read the cluster configuration, with the text that the
    /// configuration reader gives for it.
    pub fn from_kubeconfig(err: &kube::config::KubeconfigError) -> (e: KubeErr)
        ensures
            e matches KubeErr::Kubeconfig(msg) && to_string_from_display_ensures(err, msg),
    {
        KubeErr::Kubeconfig(err.to_string())
    }

    /// A failure of the cluster client, with the client's own text.
    pub fn from_kube(err: &kube::error::Error) -> (e: KubeErr)
        ensures
            e matches KubeErr::Kube(msg) && to_string_from_display_ensures(err, msg),
    {
        KubeErr::Kube(err.to_string())
    }

    /// A failed or aborted prompt, with the prompt's own text.
    pub fn from_prompt(err: &inquire::error::InquireError) -> (e: KubeErr)
        ensures
            e matches KubeErr::Prompt(msg) && to_string_from_display_ensures(err, msg),
    {
        KubeErr::Prompt(err.to_string())
    }

    /// A failure while data moved to or from the workload, with the
    /// connection's own text.
    pub fn from_network(err: &hyper::Error) -> (e: KubeErr)
        ensures
            e matches KubeErr::Network(msg) && to_string_from_display_ensures(err, msg),
    {
        KubeErr::Network(err.to_string())
    }
}

} // verus!

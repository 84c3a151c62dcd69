//! The ways a call into the client can fail.

use vstd::prelude::*;

verus! {

/// Why a call failed. Each failure is handed to the caller once; nothing is
/// retried.
#[derive(Debug, Clone)]
pub enum ClientError {
    /// The kubeconfig is missing or cannot be parsed; the text says why.
    ConfigUnreadable(String),
    /// The kubeconfig names no current context.
    NoCurrentContext,
    /// The kubeconfig has no context of this name.
    ContextNotFound(String),
    /// No connection handle is installed.
    NotConnected,
    /// No handle could be built; the text says why.
    ConnectFailed(String),
    /// The cluster did not answer a list or log call; the text says why.
    RemoteCallFailed(String),
}

impl ClientError {
    /// The line shown to the operator for this failure.
    pub open spec fn message_text(self) -> Seq<char> {
        match self {
            ClientError::ConfigUnreadable(reason) => "Failed to read kubeconfig: "@ + reason@,
            ClientError::NoCurrentContext => "No current context set"@,
            ClientError::ContextNotFound(name) => "Context not found: "@ + name@,
            ClientError::NotConnected => "Not connected to Kubernetes cluster"@,
            ClientError::ConnectFailed(reason) => "Failed to create Kubernetes client: "@
                + reason@,
            ClientError::RemoteCallFailed(reason) => "Remote call failed: "@ + reason@,
        }
    }

    /// The line shown to the operator for this failure.
    pub fn message(&self) -> (line: String)
        ensures
            line@ == self.message_text(),
    {
        match self {
            ClientError::ConfigUnreadable(reason) => String::from_str(
                "Failed to read kubeconfig: ",
            ).concat(reason.as_str()),
            ClientError::NoCurrentContext => String::from_str("No current context set"),
            ClientError::ContextNotFound(name) => String::from_str("Context not found: ").concat(
                name.as_str(),
            ),
            ClientError::NotConnected => String::from_str("Not connected to Kubernetes cluster"),
            ClientError::ConnectFailed(reason) => String::from_str(
                "Failed to create Kubernetes client: ",
            ).concat(reason.as_str()),
            ClientError::RemoteCallFailed(reason) => String::from_str(
                "Remote call failed: ",
            ).concat(reason.as_str()),
        }
    }
}

} // verus!

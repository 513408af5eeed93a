//! All errors possible to occur during reconciliation.

use crate::gateway::{ClusterError, ClusterErrorView};
use vstd::prelude::*;
use vstd::string::StringExecFns;

verus! {

/// All errors possible to occur during reconciliation
#[derive(Clone, Debug, PartialEq, Eq)]
pub enum Error {
    /// Any error that a call to the cluster reported
    KubeError { source: ClusterError },
    /// Error in user input or pgopr resource definition, typically missing fields.
    UserInputError(String),
}

pub enum ErrorView {
    KubeError { source: ClusterErrorView },
    UserInputError(Seq<char>),
}

impl View for Error {
    type V = ErrorView;

    open spec fn view(&self) -> ErrorView {
        match self {
            Error::KubeError { source } => ErrorView::KubeError { source: source@ },
            Error::UserInputError(text) => ErrorView::UserInputError(text@),
        }
    }
}

impl ClusterErrorView {
    /// The failure in words: what the API server said and its reason, or what
    /// went wrong on the way.
    pub open spec fn message(self) -> Seq<char> {
        match self {
            ClusterErrorView::Api { reason, message, .. } => message + ": "@ + reason,
            ClusterErrorView::Transport { message } => message,
        }
    }
}

impl ErrorView {
    /// The error in words.
    pub open spec fn message(self) -> Seq<char> {
        match self {
            ErrorView::KubeError { source } => "Kubernetes reported error: "@ + source.message(),
            ErrorView::UserInputError(text) => "Invalid pgopr CRD: "@ + text,
        }
    }
}

impl ClusterError {
    /// The failure in words.
    pub fn message(&self) -> (text: String)
        ensures
            text@ == self@.message(),
    {
        match self {
            ClusterError::Api { reason, message, .. } => {
                let mut text = message.clone();
                text.append(": ");
                text.append(reason.as_str());
                text
            },
            ClusterError::Transport { message } => message.clone(),
        }
    }
}

impl Error {
    /// The error in words.
    pub fn message(&self) -> (text: String)
        ensures
            text@ == self@.message(),
    {
        match self {
            Error::KubeError { source } => {
                let mut text = String::from_str("Kubernetes reported error: ");
                let detail = source.message();
                text.append(detail.as_str());
                text
            },
            Error::UserInputError(input) => {
                let mut text = String::from_str("Invalid pgopr CRD: ");
                text.append(input.as_str());
                text
            },
        }
    }
}

impl From<ClusterError> for Error {
    fn from(source: ClusterError) -> (error: Error) {
        Error::KubeError { source }
    }
}

impl vstd::std_specs::convert::FromSpecImpl<ClusterError> for Error {
    open spec fn obeys_from_spec() -> bool {
        true
    }

    open spec fn from_spec(source: ClusterError) -> Error {
        Error::KubeError { source }
    }
}

} // verus!

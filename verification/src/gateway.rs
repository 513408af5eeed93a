//! What the operator asks of the cluster, and how it reads the answers.
//!
//! The operator never talks to the cluster itself. It hands out a
//! [`Request`]; whoever performs it reports success or a [`ClusterError`].

use crate::finalizer::{FinalizerPatch, FinalizerPatchView};
use crate::persistent::{
    PersistentVolume, PersistentVolumeClaim, PersistentVolumeClaimView, PersistentVolumeView,
};
use crate::primary::{Deployment, DeploymentView};
use crate::services::{Service, ServiceView};
use vstd::prelude::*;

verus! {

/// The reason an API server gives when the object to create is there already.
pub const ALREADY_EXISTS: &'static str = "AlreadyExists";

/// The reason an API server gives when the object asked for is missing.
pub const NOT_FOUND: &'static str = "NotFound";

/// A failed call to the cluster.
#[allow(inconsistent_fields)]
#[derive(Clone, Debug, PartialEq, Eq)]
pub enum ClusterError {
    /// The API server answered, and refused.
    Api { code: u16, reason: String, message: String },
    /// No answer of the API server was had: the transport or the encoding failed.
    Transport { message: String },
}

#[allow(inconsistent_fields)]
pub enum ClusterErrorView {
    Api { code: u16, reason: Seq<char>, message: Seq<char> },
    Transport { message: Seq<char> },
}

impl View for ClusterError {
    type V = ClusterErrorView;

    open spec fn view(&self) -> ClusterErrorView {
        match self {
            ClusterError::Api { code, reason, message } => ClusterErrorView::Api {
                code: *code,
                reason: reason@,
                message: message@,
            },
            ClusterError::Transport { message } => ClusterErrorView::Transport {
                message: message@,
            },
        }
    }
}

impl ClusterErrorView {
    /// The API server gave `reason` for its refusal.
    pub open spec fn has_reason(self, reason: Seq<char>) -> bool {
        self matches ClusterErrorView::Api { reason: given, .. } && given == reason
    }
}

impl ClusterError {
    /// The API server refused because the object exists already.
    pub fn is_already_exists(&self) -> (yes: bool)
        ensures
            yes == self@.has_reason(ALREADY_EXISTS@),
    {
        match self {
            ClusterError::Api { reason, .. } => *reason == ALREADY_EXISTS.to_owned(),
            ClusterError::Transport { .. } => false,
        }
    }

    /// The API server refused because the object is missing.
    pub fn is_not_found(&self) -> (yes: bool)
        ensures
            yes == self@.has_reason(NOT_FOUND@),
    {
        match self {
            ClusterError::Api { reason, .. } => *reason == NOT_FOUND.to_owned(),
            ClusterError::Transport { .. } => false,
        }
    }
}

/// One mutation of the cluster.
#[allow(inconsistent_fields)]
#[derive(Clone, Debug, PartialEq, Eq)]
pub enum Request {
    /// Register the custom resource definition, then wait until the cluster
    /// reports the definition `established` as established, `timeout_seconds`
    /// at most.
    CreateCrd { established: String, timeout_seconds: u64 },
    DeleteCrd { name: String },
    CreatePersistentVolume { manifest: PersistentVolume },
    DeletePersistentVolume { name: String },
    CreatePersistentVolumeClaim { namespace: String, manifest: PersistentVolumeClaim },
    DeletePersistentVolumeClaim { name: String, namespace: String },
    CreateDeployment { namespace: String, manifest: Deployment },
    DeleteDeployment { name: String, namespace: String },
    CreateService { namespace: String, manifest: Service },
    DeleteService { name: String, namespace: String },
    /// Merge `patch` into the `pgopr` resource `name` of `namespace`.
    PatchFinalizers { name: String, namespace: String, patch: FinalizerPatch },
}

#[allow(inconsistent_fields)]
pub enum RequestView {
    CreateCrd { established: Seq<char>, timeout_seconds: u64 },
    DeleteCrd { name: Seq<char> },
    CreatePersistentVolume { manifest: PersistentVolumeView },
    DeletePersistentVolume { name: Seq<char> },
    CreatePersistentVolumeClaim { namespace: Seq<char>, manifest: PersistentVolumeClaimView },
    DeletePersistentVolumeClaim { name: Seq<char>, namespace: Seq<char> },
    CreateDeployment { namespace: Seq<char>, manifest: DeploymentView },
    DeleteDeployment { name: Seq<char>, namespace: Seq<char> },
    CreateService { namespace: Seq<char>, manifest: ServiceView },
    DeleteService { name: Seq<char>, namespace: Seq<char> },
    PatchFinalizers { name: Seq<char>, namespace: Seq<char>, patch: FinalizerPatchView },
}

impl View for Request {
    type V = RequestView;

    open spec fn view(&self) -> RequestView {
        match self {
            Request::CreateCrd { established, timeout_seconds } => RequestView::CreateCrd {
                established: established@,
                timeout_seconds: *timeout_seconds,
            },
            Request::DeleteCrd { name } => RequestView::DeleteCrd { name: name@ },
            Request::CreatePersistentVolume { manifest } => RequestView::CreatePersistentVolume {
                manifest: manifest@,
            },
            Request::DeletePersistentVolume { name } => RequestView::DeletePersistentVolume {
                name: name@,
            },
            Request::CreatePersistentVolumeClaim {
                namespace,
                manifest,
            } => RequestView::CreatePersistentVolumeClaim {
                namespace: namespace@,
                manifest: manifest@,
            },
            Request::DeletePersistentVolumeClaim {
                name,
                namespace,
            } => RequestView::DeletePersistentVolumeClaim { name: name@, namespace: namespace@ },
            Request::CreateDeployment { namespace, manifest } => RequestView::CreateDeployment {
                namespace: namespace@,
                manifest: manifest@,
            },
            Request::DeleteDeployment { name, namespace } => RequestView::DeleteDeployment {
                name: name@,
                namespace: namespace@,
            },
            Request::CreateService { namespace, manifest } => RequestView::CreateService {
                namespace: namespace@,
                manifest: manifest@,
            },
            Request::DeleteService { name, namespace } => RequestView::DeleteService {
                name: name@,
                namespace: namespace@,
            },
            Request::PatchFinalizers { name, namespace, patch } => RequestView::PatchFinalizers {
                name: name@,
                namespace: namespace@,
                patch: patch@,
            },
        }
    }
}

impl DeepView for Request {
    type V = RequestView;

    open spec fn deep_view(&self) -> RequestView {
        self@
    }
}

impl RequestView {
    /// The request creates an object.
    pub open spec fn is_create(self) -> bool {
        self is CreateCrd || self is CreatePersistentVolume || self is CreatePersistentVolumeClaim
            || self is CreateDeployment || self is CreateService
    }

    /// The request deletes an object.
    pub open spec fn is_delete(self) -> bool {
        self is DeleteCrd || self is DeletePersistentVolume || self is DeletePersistentVolumeClaim
            || self is DeleteDeployment || self is DeleteService
    }

    /// The failure shows that the cluster is already as the request wants it:
    /// the object to create exists, or the object to delete is missing. A
    /// patch of the finalizers has no such failure.
    pub open spec fn settled_by(self, error: ClusterErrorView) -> bool {
        ||| self.is_create() && error.has_reason(ALREADY_EXISTS@)
        ||| self.is_delete() && error.has_reason(NOT_FOUND@)
    }
}

} // verus!

//! The manifests that the operator can write out, and the defaults they are
//! written with.

use crate::meta::distinct_keys;
use crate::persistent::{
    claim_manifest, volume_manifest, PersistentVolume, PersistentVolumeClaim,
    PersistentVolumeClaimView, PersistentVolumeView,
};
use crate::primary::{primary_manifest, Deployment, DeploymentView};
use crate::services::{service_manifest, Service, ServiceView};
use vstd::prelude::*;

verus! {

/// The name that a primary instance is provisioned under.
pub const DEFAULT_NAME: &'static str = "postgresql";

/// The namespace that a primary instance is provisioned in.
pub const DEFAULT_NAMESPACE: &'static str = "default";

/// The storage, in gibibytes, that a primary instance is provisioned with.
pub const DEFAULT_STORAGE: u32 = 5;

/// What a generated file holds.
#[derive(Clone, Debug, PartialEq, Eq)]
pub enum Document {
    /// The definition of the `pgopr` custom resource.
    Crd,
    PersistentVolume(PersistentVolume),
    PersistentVolumeClaim(PersistentVolumeClaim),
    Deployment(Deployment),
    Service(Service),
}

pub enum DocumentView {
    Crd,
    PersistentVolume(PersistentVolumeView),
    PersistentVolumeClaim(PersistentVolumeClaimView),
    Deployment(DeploymentView),
    Service(ServiceView),
}

impl View for Document {
    type V = DocumentView;

    open spec fn view(&self) -> DocumentView {
        match self {
            Document::Crd => DocumentView::Crd,
            Document::PersistentVolume(manifest) => DocumentView::PersistentVolume(manifest@),
            Document::PersistentVolumeClaim(manifest) => DocumentView::PersistentVolumeClaim(
                manifest@,
            ),
            Document::Deployment(manifest) => DocumentView::Deployment(manifest@),
            Document::Service(manifest) => DocumentView::Service(manifest@),
        }
    }
}

/// A file to write into the working directory: its name and what it holds.
#[derive(Clone, Debug, PartialEq, Eq)]
pub struct GeneratedFile {
    pub file_name: String,
    pub document: Document,
}

pub struct GeneratedFileView {
    pub file_name: Seq<char>,
    pub document: DocumentView,
}

impl View for GeneratedFile {
    type V = GeneratedFileView;

    open spec fn view(&self) -> GeneratedFileView {
        GeneratedFileView { file_name: self.file_name@, document: self.document@ }
    }
}

impl DeepView for GeneratedFile {
    type V = GeneratedFileView;

    open spec fn deep_view(&self) -> GeneratedFileView {
        self@
    }
}

/// Synthesis depends on nothing but its inputs: two manifests of one kind
/// that were made from equal inputs are equal.
pub proof fn lemma_synthesis_is_deterministic(
    name: Seq<char>,
    namespace: Seq<char>,
    storage: nat,
    other_name: Seq<char>,
    other_namespace: Seq<char>,
    other_storage: nat,
)
    requires
        name == other_name,
        namespace == other_namespace,
        storage == other_storage,
    ensures
        volume_manifest(name, storage) == volume_manifest(other_name, other_storage),
        claim_manifest(name, namespace, storage) == claim_manifest(
            other_name,
            other_namespace,
            other_storage,
        ),
        primary_manifest(name, namespace) == primary_manifest(other_name, other_namespace),
        service_manifest(name, namespace) == service_manifest(other_name, other_namespace),
{
}

/// The service of a primary leads to the pods of its workload, whatever
/// the name: it selects by the labels that the pods carry, as the workload
/// itself does, and on the port that the container listens on.
pub proof fn lemma_service_selects_primary(name: Seq<char>, namespace: Seq<char>)
    ensures
        service_manifest(name, namespace).selector == primary_manifest(name, namespace).pod_labels,
        primary_manifest(name, namespace).selector == primary_manifest(name, namespace).pod_labels,
        service_manifest(name, namespace).ports == primary_manifest(
            name,
            namespace,
        ).containers[0].ports,
{
    assert(service_manifest(name, namespace).selector =~= primary_manifest(
        name,
        namespace,
    ).pod_labels);
    assert(service_manifest(name, namespace).ports =~= primary_manifest(
        name,
        namespace,
    ).containers[0].ports);
}

/// No manifest sets a label twice, so the labels of each stand for a map
/// from key to value.
pub proof fn lemma_label_keys_are_distinct(name: Seq<char>, namespace: Seq<char>, storage: nat)
    ensures
        distinct_keys(volume_manifest(name, storage).labels),
        distinct_keys(claim_manifest(name, namespace, storage).labels),
        distinct_keys(primary_manifest(name, namespace).selector),
        distinct_keys(primary_manifest(name, namespace).pod_labels),
        distinct_keys(service_manifest(name, namespace).labels),
        distinct_keys(service_manifest(name, namespace).selector),
{
    reveal_strlit("app");
    reveal_strlit("type");
    assert("app"@.len() != "type"@.len());
}

} // verus!

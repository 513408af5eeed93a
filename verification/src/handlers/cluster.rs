//! The commands that change the cluster. Each gives the requests to make,
//! in order; every one of them is made, whatever became of those before it.

use crate::crd::{crd_deploy, crd_undeploy, CRD_NAME, ESTABLISH_SECONDS, GROUP};
use crate::gateway::{Request, RequestView};
use crate::manifest::{DEFAULT_NAME, DEFAULT_NAMESPACE, DEFAULT_STORAGE};
use crate::persistent::{
    claim_manifest, persistent_volume_claim_deploy, persistent_volume_claim_undeploy,
    persistent_volume_deploy, persistent_volume_undeploy, volume_manifest, CLAIM_NAME,
    VOLUME_NAME,
};
use crate::primary::{primary_deploy, primary_manifest, primary_undeploy};
use crate::services::{service_deploy, service_manifest, service_undeploy};
use vstd::prelude::*;

verus! {

/// The requests that install the operator.
pub open spec fn install_plan() -> Seq<RequestView> {
    seq![RequestView::CreateCrd { established: GROUP@, timeout_seconds: ESTABLISH_SECONDS }]
}

/// The requests that uninstall the operator.
pub open spec fn uninstall_plan() -> Seq<RequestView> {
    seq![RequestView::DeleteCrd { name: CRD_NAME@ }]
}

/// The requests that provision the default primary: volume, claim, workload
/// and service.
pub open spec fn provision_plan() -> Seq<RequestView> {
    seq![
        RequestView::CreatePersistentVolume {
            manifest: volume_manifest(VOLUME_NAME@, DEFAULT_STORAGE as nat),
        },
        RequestView::CreatePersistentVolumeClaim {
            namespace: DEFAULT_NAMESPACE@,
            manifest: claim_manifest(CLAIM_NAME@, DEFAULT_NAMESPACE@, DEFAULT_STORAGE as nat),
        },
        RequestView::CreateDeployment {
            namespace: DEFAULT_NAMESPACE@,
            manifest: primary_manifest(DEFAULT_NAME@, DEFAULT_NAMESPACE@),
        },
        RequestView::CreateService {
            namespace: DEFAULT_NAMESPACE@,
            manifest: service_manifest(DEFAULT_NAME@, DEFAULT_NAMESPACE@),
        },
    ]
}

/// The requests that retire the default primary: service, workload, claim
/// and volume.
pub open spec fn retire_plan() -> Seq<RequestView> {
    seq![
        RequestView::DeleteService { name: DEFAULT_NAME@, namespace: DEFAULT_NAMESPACE@ },
        RequestView::DeleteDeployment { name: DEFAULT_NAME@, namespace: DEFAULT_NAMESPACE@ },
        RequestView::DeletePersistentVolumeClaim {
            name: CLAIM_NAME@,
            namespace: DEFAULT_NAMESPACE@,
        },
        RequestView::DeletePersistentVolume { name: VOLUME_NAME@ },
    ]
}

/// `delete` removes the very object that `create` makes.
pub open spec fn undoes(delete: RequestView, create: RequestView) -> bool {
    match (delete, create) {
        (
            RequestView::DeletePersistentVolume { name },
            RequestView::CreatePersistentVolume { manifest },
        ) => name == manifest.name,
        (
            RequestView::DeletePersistentVolumeClaim { name, namespace },
            RequestView::CreatePersistentVolumeClaim { namespace: target, manifest },
        ) => name == manifest.name && namespace == target && namespace == manifest.namespace,
        (
            RequestView::DeleteDeployment { name, namespace },
            RequestView::CreateDeployment { namespace: target, manifest },
        ) => name == manifest.name && namespace == target && namespace == manifest.namespace,
        (
            RequestView::DeleteService { name, namespace },
            RequestView::CreateService { namespace: target, manifest },
        ) => name == manifest.name && namespace == target && namespace == manifest.namespace,
        _ => false,
    }
}

/// Orchestrates the installation of the operator and its CRDs.
pub fn handle_install() -> (requests: Vec<Request>)
    ensures
        requests.deep_view() == install_plan(),
{
    let mut requests: Vec<Request> = Vec::new();
    requests.push(crd_deploy());
    assert(requests.deep_view() =~= install_plan());
    requests
}

/// Orchestrates the uninstallation of the operator and its CRDs.
pub fn handle_uninstall() -> (requests: Vec<Request>)
    ensures
        requests.deep_view() == uninstall_plan(),
{
    let mut requests: Vec<Request> = Vec::new();
    requests.push(crd_undeploy());
    assert(requests.deep_view() =~= uninstall_plan());
    requests
}

/// Provisions the primary database components (PV, PVC, Deployment, Service).
pub fn handle_provision_primary() -> (requests: Vec<Request>)
    ensures
        requests.deep_view() == provision_plan(),
{
    let mut requests: Vec<Request> = Vec::new();
    requests.push(persistent_volume_deploy(VOLUME_NAME, DEFAULT_STORAGE));
    requests.push(persistent_volume_claim_deploy(CLAIM_NAME, DEFAULT_NAMESPACE, DEFAULT_STORAGE));
    requests.push(primary_deploy(DEFAULT_NAME, DEFAULT_NAMESPACE));
    requests.push(service_deploy(DEFAULT_NAME, DEFAULT_NAMESPACE));
    assert(requests.deep_view() =~= provision_plan());
    requests
}

/// Removes the primary database components.
pub fn handle_retire_primary() -> (requests: Vec<Request>)
    ensures
        requests.deep_view() == retire_plan(),
{
    let mut requests: Vec<Request> = Vec::new();
    requests.push(service_undeploy(DEFAULT_NAME, DEFAULT_NAMESPACE));
    requests.push(primary_undeploy(DEFAULT_NAME, DEFAULT_NAMESPACE));
    requests.push(persistent_volume_claim_undeploy(CLAIM_NAME, DEFAULT_NAMESPACE));
    requests.push(persistent_volume_undeploy(VOLUME_NAME));
    assert(requests.deep_view() =~= retire_plan());
    requests
}

/// Retiring undoes provisioning in reverse: each deletion removes what the
/// creation at the mirrored place made.
pub proof fn lemma_retire_reverses_provision()
    ensures
        retire_plan().len() == provision_plan().len(),
        forall|i: int|
            0 <= i < retire_plan().len() ==> undoes(
                #[trigger] retire_plan()[i],
                provision_plan()[provision_plan().len() - 1 - i],
            ),
{
    assert(undoes(retire_plan()[0], provision_plan()[3]));
    assert(undoes(retire_plan()[1], provision_plan()[2]));
    assert(undoes(retire_plan()[2], provision_plan()[1]));
    assert(undoes(retire_plan()[3], provision_plan()[0]));
}

} // verus!

//! A model of the cluster, and what reconciliations do to it.
//!
//! The model holds what the operator can change: the finalizers of `pgopr`
//! resources and the existence of dependents. It answers a request as an API
//! server does: it refuses to create what exists and to delete or patch
//! what is missing, and it removes a resource that is being deleted as soon
//! as no finalizer is left on it. Nothing here is executable; the model
//! serves to state what reconciliations achieve and that making their
//! requests again is harmless.

use crate::crd::v1::PgOprView;
use crate::crd::CRD_NAME;
use crate::error::ErrorView;
use crate::finalizer::{without_token, FINALIZER};
use crate::gateway::{ClusterErrorView, RequestView, ALREADY_EXISTS, NOT_FOUND};
use crate::handlers::cluster::{provision_plan, retire_plan};
use crate::meta::ObjectMetaView;
use crate::reconciler::{determine, start, Directive, PgOprAction, StepView, REQUEUE_SECONDS};
use vstd::prelude::*;

verus! {

/// The kinds of object that the operator creates and deletes.
#[derive(Clone, Copy, Debug, PartialEq, Eq, Structural)]
pub enum Kind {
    Crd,
    PersistentVolume,
    PersistentVolumeClaim,
    Deployment,
    Service,
}

/// The identity of an object. For an object that is not namespaced the
/// namespace is empty.
pub struct ObjectKey {
    pub kind: Kind,
    pub namespace: Seq<char>,
    pub name: Seq<char>,
}

/// The identity of a `pgopr` resource.
pub struct ResourceKey {
    pub namespace: Seq<char>,
    pub name: Seq<char>,
}

/// The state of the cluster, as far as the operator changes it.
pub struct Cluster {
    /// The metadata of each `pgopr` resource.
    pub resources: Map<ResourceKey, ObjectMetaView>,
    /// The dependents that exist.
    pub objects: Set<ObjectKey>,
}

impl RequestView {
    /// The object that a request creates or deletes; none for a patch.
    pub open spec fn target(self) -> Option<ObjectKey> {
        match self {
            RequestView::CreateCrd { .. } => Some(ObjectKey {
                kind: Kind::Crd,
                namespace: Seq::empty(),
                name: CRD_NAME@,
            }),
            RequestView::DeleteCrd { name } => Some(ObjectKey {
                kind: Kind::Crd,
                namespace: Seq::empty(),
                name,
            }),
            RequestView::CreatePersistentVolume { manifest } => Some(ObjectKey {
                kind: Kind::PersistentVolume,
                namespace: Seq::empty(),
                name: manifest.name,
            }),
            RequestView::DeletePersistentVolume { name } => Some(ObjectKey {
                kind: Kind::PersistentVolume,
                namespace: Seq::empty(),
                name,
            }),
            RequestView::CreatePersistentVolumeClaim { namespace, manifest } => Some(ObjectKey {
                kind: Kind::PersistentVolumeClaim,
                namespace,
                name: manifest.name,
            }),
            RequestView::DeletePersistentVolumeClaim { name, namespace } => Some(ObjectKey {
                kind: Kind::PersistentVolumeClaim,
                namespace,
                name,
            }),
            RequestView::CreateDeployment { namespace, manifest } => Some(ObjectKey {
                kind: Kind::Deployment,
                namespace,
                name: manifest.name,
            }),
            RequestView::DeleteDeployment { name, namespace } => Some(ObjectKey {
                kind: Kind::Deployment,
                namespace,
                name,
            }),
            RequestView::CreateService { namespace, manifest } => Some(ObjectKey {
                kind: Kind::Service,
                namespace,
                name: manifest.name,
            }),
            RequestView::DeleteService { name, namespace } => Some(ObjectKey {
                kind: Kind::Service,
                namespace,
                name,
            }),
            RequestView::PatchFinalizers { .. } => None,
        }
    }
}

/// The refusal to create what exists.
pub open spec fn already_exists() -> ClusterErrorView {
    ClusterErrorView::Api { code: 409, reason: ALREADY_EXISTS@, message: Seq::empty() }
}

/// The refusal to delete or patch what is missing.
pub open spec fn not_found() -> ClusterErrorView {
    ClusterErrorView::Api { code: 404, reason: NOT_FOUND@, message: Seq::empty() }
}

/// A resource is gone from the cluster once its removal was requested and
/// no finalizer holds it.
pub open spec fn removable(meta: ObjectMetaView) -> bool {
    meta.deletion_timestamp is Some && meta.finalizer_list().len() == 0
}

/// The cluster after `request`, and the answer to it.
pub open spec fn respond(cluster: Cluster, request: RequestView) -> (
    Cluster,
    Result<(), ClusterErrorView>,
) {
    if request is PatchFinalizers {
        let key = ResourceKey {
            namespace: request->PatchFinalizers_namespace,
            name: request->PatchFinalizers_name,
        };
        if !cluster.resources.dom().contains(key) {
            (cluster, Err(not_found()))
        } else {
            let merged = request->PatchFinalizers_patch.apply(cluster.resources[key]);
            let resources = if removable(merged) {
                cluster.resources.remove(key)
            } else {
                cluster.resources.insert(key, merged)
            };
            (Cluster { resources, ..cluster }, Ok(()))
        }
    } else if request.is_create() {
        if cluster.objects.contains(request.target()->0) {
            (cluster, Err(already_exists()))
        } else {
            (Cluster { objects: cluster.objects.insert(request.target()->0), ..cluster }, Ok(()))
        }
    } else {
        if cluster.objects.contains(request.target()->0) {
            (Cluster { objects: cluster.objects.remove(request.target()->0), ..cluster }, Ok(()))
        } else {
            (cluster, Err(not_found()))
        }
    }
}

/// What became of a reconciliation that was run against the model.
pub struct Execution {
    /// The cluster as the reconciliation left it.
    pub cluster: Cluster,
    /// The result, unless the reconciliation was abandoned.
    pub result: Option<Result<Directive, ErrorView>>,
}

/// Runs the reconciliation that begins with `step` against `cluster`. It is
/// abandoned once `limit` requests are made and more would follow.
pub open spec fn execute(step: StepView, cluster: Cluster, limit: nat) -> Execution
    decreases limit,
{
    match step {
        StepView::Finish { result } => Execution { cluster, result: Some(result) },
        StepView::Perform { request, state } => {
            if limit == 0 {
                Execution { cluster, result: None }
            } else {
                let (after, outcome) = respond(cluster, request);
                execute(state.resume(outcome), after, (limit - 1) as nat)
            }
        },
    }
}

/// The identity of `resource`.
pub open spec fn resource_key(resource: PgOprView) -> ResourceKey {
    ResourceKey {
        namespace: resource.metadata.namespace->0,
        name: resource.metadata.name_any(),
    }
}

/// The identity of the workload of `resource`.
pub open spec fn workload_key(resource: PgOprView) -> ObjectKey {
    ObjectKey {
        kind: Kind::Deployment,
        namespace: resource.metadata.namespace->0,
        name: resource.metadata.name_any(),
    }
}

/// No reconciliation makes more than two requests: run with room for two,
/// it comes to its end.
pub proof fn lemma_reconciliation_ends(resource: PgOprView, cluster: Cluster)
    ensures
        execute(start(resource), cluster, 2).result is Some,
{
    reveal_with_fuel(execute, 3);
}

/// Reconciling a resource that asks for creation leaves it with the
/// operator's finalizer and with its workload, whether or not either was
/// there before.
pub proof fn lemma_create_provisions(resource: PgOprView, cluster: Cluster)
    requires
        resource.metadata.namespace is Some,
        determine(resource.metadata) == PgOprAction::CreatePrimary,
        cluster.resources.dom().contains(resource_key(resource)),
    ensures
        ({
            let done = execute(start(resource), cluster, 2);
            &&& done.result == Some(
                Ok::<Directive, ErrorView>(Directive::Requeue { seconds: REQUEUE_SECONDS }),
            )
            &&& done.cluster.resources.dom().contains(resource_key(resource))
            &&& done.cluster.resources[resource_key(resource)].finalizers == Some(
                seq![FINALIZER@],
            )
            &&& done.cluster.objects.contains(workload_key(resource))
        }),
{
    reveal_with_fuel(execute, 3);
}

/// Reconciling a resource whose removal was requested, and which no other
/// holder keeps, deletes its workload and lets the resource go, whether or
/// not the workload was still there.
pub proof fn lemma_delete_tears_down(resource: PgOprView, cluster: Cluster)
    requires
        resource.metadata.namespace is Some,
        determine(resource.metadata) == PgOprAction::DeletePrimary,
        cluster.resources.dom().contains(resource_key(resource)),
        cluster.resources[resource_key(resource)].deletion_timestamp is Some,
        without_token(resource.metadata.finalizer_list()).len() == 0,
    ensures
        ({
            let done = execute(start(resource), cluster, 2);
            &&& done.result == Some(Ok::<Directive, ErrorView>(Directive::AwaitChange))
            &&& !done.cluster.resources.dom().contains(resource_key(resource))
            &&& !done.cluster.objects.contains(workload_key(resource))
        }),
{
    reveal_with_fuel(execute, 3);
}

/// Reconciling a resource whose removal was requested, and which another
/// holder keeps, deletes its workload and takes the operator's token out.
/// The resource stays, held by the tokens of the others.
pub proof fn lemma_delete_leaves_foreign_holders(resource: PgOprView, cluster: Cluster)
    requires
        resource.metadata.namespace is Some,
        determine(resource.metadata) == PgOprAction::DeletePrimary,
        cluster.resources.dom().contains(resource_key(resource)),
        without_token(resource.metadata.finalizer_list()).len() > 0,
    ensures
        ({
            let done = execute(start(resource), cluster, 2);
            &&& done.result == Some(Ok::<Directive, ErrorView>(Directive::AwaitChange))
            &&& done.cluster.resources.dom().contains(resource_key(resource))
            &&& done.cluster.resources[resource_key(resource)].finalizers == Some(
                without_token(resource.metadata.finalizer_list()),
            )
            &&& !done.cluster.objects.contains(workload_key(resource))
        }),
{
    reveal_with_fuel(execute, 3);
}

/// Reconciling a settled resource, or one without a namespace, leaves the
/// cluster as it is.
pub proof fn lemma_nothing_to_do(resource: PgOprView, cluster: Cluster, limit: nat)
    requires
        resource.metadata.namespace is None || determine(resource.metadata) == PgOprAction::NoOp,
    ensures
        execute(start(resource), cluster, limit).cluster == cluster,
{
    reveal_with_fuel(execute, 2);
}

/// A workload never stands without the finalizer: wherever a reconciliation
/// is abandoned, a workload that it created belongs to a resource that
/// carries the finalizer.
pub proof fn lemma_no_workload_without_finalizer(
    resource: PgOprView,
    cluster: Cluster,
    limit: nat,
)
    requires
        resource.metadata.namespace is Some,
        !cluster.objects.contains(workload_key(resource)),
        execute(start(resource), cluster, limit).cluster.objects.contains(workload_key(resource)),
    ensures
        ({
            let reached = execute(start(resource), cluster, limit).cluster;
            &&& reached.resources.dom().contains(resource_key(resource))
            &&& reached.resources[resource_key(resource)].finalizers == Some(seq![FINALIZER@])
        }),
{
    reveal_with_fuel(execute, 3);
}

/// A resource is not let go before its workload is deleted: wherever a
/// reconciliation is abandoned, a resource that it removed has left no
/// workload behind.
pub proof fn lemma_no_removal_before_cleanup(
    resource: PgOprView,
    cluster: Cluster,
    limit: nat,
)
    requires
        resource.metadata.namespace is Some,
        cluster.resources.dom().contains(resource_key(resource)),
        !execute(start(resource), cluster, limit).cluster.resources.dom().contains(
            resource_key(resource),
        ),
    ensures
        !execute(start(resource), cluster, limit).cluster.objects.contains(
            workload_key(resource),
        ),
{
    reveal_with_fuel(execute, 3);
}

/// Delivering an observation again is harmless. Abandon a reconciliation
/// after any number of requests and reconcile the same observation from
/// scratch: the cluster ends as if the first reconciliation had run to its
/// end.
pub proof fn lemma_redelivery_is_harmless(resource: PgOprView, cluster: Cluster, limit: nat)
    ensures
        execute(start(resource), execute(start(resource), cluster, limit).cluster, 2).cluster
            == execute(start(resource), cluster, 2).cluster,
{
    reveal_with_fuel(execute, 3);
    let partial = execute(start(resource), cluster, limit).cluster;
    let again = execute(start(resource), partial, 2).cluster;
    let whole = execute(start(resource), cluster, 2).cluster;
    assert(again.resources =~= whole.resources);
    assert(again.objects =~= whole.objects);
}

/// The cluster after each of `requests` was made in turn, whatever the
/// answers were.
pub open spec fn perform_all(cluster: Cluster, requests: Seq<RequestView>) -> Cluster
    decreases requests.len(),
{
    if requests.len() == 0 {
        cluster
    } else {
        perform_all(respond(cluster, requests[0]).0, requests.drop_first())
    }
}

proof fn lemma_perform_four(cluster: Cluster, requests: Seq<RequestView>)
    requires
        requests.len() == 4,
    ensures
        perform_all(cluster, requests) == respond(
            respond(respond(respond(cluster, requests[0]).0, requests[1]).0, requests[2]).0,
            requests[3],
        ).0,
{
    let second = requests.drop_first();
    let third = second.drop_first();
    let fourth = third.drop_first();
    assert(second[0] == requests[1]);
    assert(third[0] == requests[2]);
    assert(fourth[0] == requests[3]);
    assert(fourth.drop_first().len() == 0);
    reveal_with_fuel(perform_all, 5);
}

/// Provisioning leaves the four dependents of the default primary in the
/// cluster, and provisioning again changes nothing.
pub proof fn lemma_provision_is_idempotent(cluster: Cluster)
    ensures
        forall|i: int|
            0 <= i < provision_plan().len() ==> perform_all(
                cluster,
                provision_plan(),
            ).objects.contains(#[trigger] provision_plan()[i].target()->0),
        perform_all(perform_all(cluster, provision_plan()), provision_plan()) == perform_all(
            cluster,
            provision_plan(),
        ),
{
    let once = perform_all(cluster, provision_plan());
    let twice = perform_all(once, provision_plan());
    lemma_perform_four(cluster, provision_plan());
    lemma_perform_four(once, provision_plan());
    assert(twice.objects =~= once.objects);
    assert(twice.resources =~= once.resources);
}

/// Retiring after provisioning leaves none of the four dependents, and
/// touches no `pgopr` resource.
pub proof fn lemma_retire_undoes_provision(cluster: Cluster)
    ensures
        forall|i: int|
            0 <= i < provision_plan().len() ==> !perform_all(
                perform_all(cluster, provision_plan()),
                retire_plan(),
            ).objects.contains(#[trigger] provision_plan()[i].target()->0),
        perform_all(perform_all(cluster, provision_plan()), retire_plan()).resources
            == cluster.resources,
{
    let provisioned = perform_all(cluster, provision_plan());
    lemma_perform_four(cluster, provision_plan());
    lemma_perform_four(provisioned, retire_plan());
}

} // verus!

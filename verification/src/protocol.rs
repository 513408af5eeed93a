//! What every reconciliation does, whatever the cluster answers.
//!
//! A reconciliation is run by performing the request of each step and
//! handing its outcome back. [`run`] is the record of such a run: the
//! requests made, in order, and the result if the run came to its end.

use crate::crd::v1::PgOprView;
use crate::error::ErrorView;
use crate::finalizer::{add_patch, delete_patch, lemma_add_keeps_foreign_tokens};
use crate::gateway::{ClusterErrorView, RequestView, ALREADY_EXISTS, NOT_FOUND};
use crate::primary::primary_manifest;
use crate::reconciler::{
    determine, start, Directive, PgOprAction, StepView, MISSING_NAMESPACE, REQUEUE_SECONDS,
};
use vstd::prelude::*;

verus! {

/// The record of a run.
pub struct Run {
    /// The requests that were made of the cluster, in order.
    pub requests: Seq<RequestView>,
    /// The result, once the reconciliation is over.
    pub result: Option<Result<Directive, ErrorView>>,
}

/// The run that begins with `step` and meets the `outcomes` in turn. Where
/// the outcomes end before the reconciliation does, the last request made is
/// still unanswered and there is no result.
pub open spec fn run(step: StepView, outcomes: Seq<Result<(), ClusterErrorView>>) -> Run
    decreases outcomes.len(),
{
    match step {
        StepView::Finish { result } => Run { requests: Seq::empty(), result: Some(result) },
        StepView::Perform { request, state } => {
            if outcomes.len() == 0 {
                Run { requests: seq![request], result: None }
            } else {
                let rest = run(state.resume(outcomes[0]), outcomes.drop_first());
                Run { requests: seq![request] + rest.requests, result: rest.result }
            }
        },
    }
}

/// The request that sets the finalizer of `resource`.
pub open spec fn add_finalizer(resource: PgOprView) -> RequestView {
    RequestView::PatchFinalizers {
        name: resource.metadata.name_any(),
        namespace: resource.metadata.namespace->0,
        patch: add_patch(resource.metadata.finalizers),
    }
}

/// The request that removes the operator's finalizer from `resource`.
pub open spec fn remove_finalizer(resource: PgOprView) -> RequestView {
    RequestView::PatchFinalizers {
        name: resource.metadata.name_any(),
        namespace: resource.metadata.namespace->0,
        patch: delete_patch(resource.metadata.finalizers),
    }
}

/// The request that creates the workload of `resource`.
pub open spec fn create_workload(resource: PgOprView) -> RequestView {
    RequestView::CreateDeployment {
        namespace: resource.metadata.namespace->0,
        manifest: primary_manifest(
            resource.metadata.name_any(),
            resource.metadata.namespace->0,
        ),
    }
}

/// The request that deletes the workload of `resource`.
pub open spec fn delete_workload(resource: PgOprView) -> RequestView {
    RequestView::DeleteDeployment {
        name: resource.metadata.name_any(),
        namespace: resource.metadata.namespace->0,
    }
}

/// The requests that a reconciliation of `resource` makes when none fails.
pub open spec fn plan(resource: PgOprView) -> Seq<RequestView> {
    if resource.metadata.namespace is None {
        Seq::empty()
    } else {
        match determine(resource.metadata) {
            PgOprAction::CreatePrimary => seq![add_finalizer(resource), create_workload(resource)],
            PgOprAction::DeletePrimary => seq![
                delete_workload(resource),
                remove_finalizer(resource),
            ],
            PgOprAction::NoOp => Seq::empty(),
        }
    }
}

/// The directive that ends a reconciliation of `resource` in which nothing
/// failed.
pub open spec fn directive(resource: PgOprView) -> Directive {
    match determine(resource.metadata) {
        PgOprAction::DeletePrimary => Directive::AwaitChange,
        _ => Directive::Requeue { seconds: REQUEUE_SECONDS },
    }
}

/// The request at `index` of the plan is answered so that the reconciliation
/// goes on: with success, or with the failure that shows that the workload
/// to create exists, or that the workload to delete is missing.
pub open spec fn goes_on(
    resource: PgOprView,
    index: int,
    outcome: Result<(), ClusterErrorView>,
) -> bool {
    match outcome {
        Ok(_) => true,
        Err(error) => plan(resource)[index].settled_by(error),
    }
}

/// A resource without a namespace is refused, and nothing is asked of the
/// cluster.
pub proof fn lemma_missing_namespace(
    resource: PgOprView,
    outcomes: Seq<Result<(), ClusterErrorView>>,
)
    requires
        resource.metadata.namespace is None,
    ensures
        run(start(resource), outcomes) == (Run {
            requests: Seq::empty(),
            result: Some(Err(ErrorView::UserInputError(MISSING_NAMESPACE@))),
        }),
{
}

/// A settled resource is left as it is and looked at again after the
/// requeue delay.
pub proof fn lemma_settled_resource(
    resource: PgOprView,
    outcomes: Seq<Result<(), ClusterErrorView>>,
)
    requires
        resource.metadata.namespace is Some,
        determine(resource.metadata) == PgOprAction::NoOp,
    ensures
        run(start(resource), outcomes) == (Run {
            requests: Seq::empty(),
            result: Some(Ok(Directive::Requeue { seconds: REQUEUE_SECONDS })),
        }),
{
}

/// A resource seen for the first time gets the finalizer, then its workload,
/// and is looked at again after the requeue delay. A workload that exists
/// already is as good as one created.
pub proof fn lemma_create_primary(
    resource: PgOprView,
    patched: Result<(), ClusterErrorView>,
    created: Result<(), ClusterErrorView>,
)
    requires
        resource.metadata.namespace is Some,
        determine(resource.metadata) == PgOprAction::CreatePrimary,
        patched is Ok,
        created is Ok || created->Err_0.has_reason(ALREADY_EXISTS@),
    ensures
        run(start(resource), seq![patched, created]) == (Run {
            requests: seq![add_finalizer(resource), create_workload(resource)],
            result: Some(Ok(Directive::Requeue { seconds: REQUEUE_SECONDS })),
        }),
{
    lemma_complete_run(resource, seq![patched, created]);
}

/// A resource that is being deleted loses its workload, then the operator's
/// finalizer, and is not looked at again before it changes. A workload that
/// is missing already is as good as one deleted.
pub proof fn lemma_delete_primary(
    resource: PgOprView,
    deleted: Result<(), ClusterErrorView>,
    patched: Result<(), ClusterErrorView>,
)
    requires
        resource.metadata.namespace is Some,
        determine(resource.metadata) == PgOprAction::DeletePrimary,
        deleted is Ok || deleted->Err_0.has_reason(NOT_FOUND@),
        patched is Ok,
    ensures
        run(start(resource), seq![deleted, patched]) == (Run {
            requests: seq![delete_workload(resource), remove_finalizer(resource)],
            result: Some(Ok(Directive::AwaitChange)),
        }),
{
    lemma_complete_run(resource, seq![deleted, patched]);
}

/// Where every request of the plan is answered so that the reconciliation
/// goes on, the run makes the requests of the plan, in order, and ends well.
pub proof fn lemma_complete_run(
    resource: PgOprView,
    outcomes: Seq<Result<(), ClusterErrorView>>,
)
    requires
        resource.metadata.namespace is Some,
        outcomes.len() >= plan(resource).len(),
        forall|i: int| 0 <= i < plan(resource).len() ==> goes_on(resource, i, #[trigger] outcomes[i]),
    ensures
        run(start(resource), outcomes) == (Run {
            requests: plan(resource),
            result: Some(Ok(directive(resource))),
        }),
{
    reveal_with_fuel(run, 3);
    if plan(resource).len() > 0 {
        assert(goes_on(resource, 0, outcomes[0]));
        assert(goes_on(resource, 1, outcomes[1]));
        assert(outcomes.drop_first()[0] == outcomes[1]);
        assert(run(start(resource), outcomes).requests =~= plan(resource));
    }
}

/// The first failure that does not let the reconciliation go on ends it: the
/// error is handed up as it came, and no request follows the one that failed.
pub proof fn lemma_failure_ends_run(
    resource: PgOprView,
    outcomes: Seq<Result<(), ClusterErrorView>>,
    failed: int,
)
    requires
        resource.metadata.namespace is Some,
        0 <= failed < plan(resource).len(),
        failed < outcomes.len(),
        forall|i: int| 0 <= i < failed ==> goes_on(resource, i, #[trigger] outcomes[i]),
        !goes_on(resource, failed, outcomes[failed]),
    ensures
        run(start(resource), outcomes) == (Run {
            requests: plan(resource).take(failed + 1),
            result: Some(Err(ErrorView::KubeError { source: outcomes[failed]->Err_0 })),
        }),
{
    reveal_with_fuel(run, 3);
    if failed == 1 {
        assert(goes_on(resource, 0, outcomes[0]));
        assert(outcomes.drop_first()[0] == outcomes[1]);
    }
    assert(run(start(resource), outcomes).requests =~= plan(resource).take(failed + 1));
}

/// Whatever the cluster answers, a run asks nothing of it that is not in the
/// plan, and asks it in the order of the plan.
pub proof fn lemma_run_follows_plan(
    resource: PgOprView,
    outcomes: Seq<Result<(), ClusterErrorView>>,
)
    ensures
        run(start(resource), outcomes).requests.len() <= plan(resource).len(),
        run(start(resource), outcomes).requests == plan(resource).take(
            run(start(resource), outcomes).requests.len() as int,
        ),
{
    reveal_with_fuel(run, 3);
    let made = run(start(resource), outcomes).requests;
    if outcomes.len() >= 2 {
        assert(outcomes.drop_first()[0] == outcomes[1]);
    }
    assert(made =~= plan(resource).take(made.len() as int));
}

/// A workload is created only after the finalizer was set: the request to
/// create it is the second of its run, and the first, which set the
/// finalizer, succeeded.
pub proof fn lemma_finalizer_before_workload(
    resource: PgOprView,
    outcomes: Seq<Result<(), ClusterErrorView>>,
    index: int,
)
    requires
        0 <= index < run(start(resource), outcomes).requests.len(),
        run(start(resource), outcomes).requests[index] is CreateDeployment,
    ensures
        index == 1,
        run(start(resource), outcomes).requests[0] == add_finalizer(resource),
        outcomes[0] is Ok,
{
    reveal_with_fuel(run, 3);
    if outcomes.len() >= 2 {
        assert(outcomes.drop_first()[0] == outcomes[1]);
    }
}

/// The operator's finalizer is removed only after the workload is gone: the
/// request to remove it is the second of its run, and the first, which
/// deleted the workload, succeeded or found none.
pub proof fn lemma_workload_gone_before_finalizer(
    resource: PgOprView,
    outcomes: Seq<Result<(), ClusterErrorView>>,
    index: int,
)
    requires
        0 <= index < run(start(resource), outcomes).requests.len(),
        run(start(resource), outcomes).requests[index] == remove_finalizer(resource),
    ensures
        index == 1,
        run(start(resource), outcomes).requests[0] == delete_workload(resource),
        outcomes[0] is Ok || outcomes[0]->Err_0.has_reason(NOT_FOUND@),
{
    reveal_with_fuel(run, 3);
    if outcomes.len() >= 2 {
        assert(outcomes.drop_first()[0] == outcomes[1]);
    }
}

/// Once the finalizer is set, a resource that is not being deleted is
/// settled: reconciling it again asks nothing of the cluster.
pub proof fn lemma_settled_once_finalizer_is_set(
    resource: PgOprView,
    outcomes: Seq<Result<(), ClusterErrorView>>,
)
    requires
        resource.metadata.namespace is Some,
        resource.metadata.deletion_timestamp is None,
    ensures
        determine(add_patch(resource.metadata.finalizers).apply(resource.metadata))
            == PgOprAction::NoOp,
        run(
            start(
                PgOprView {
                    metadata: add_patch(resource.metadata.finalizers).apply(resource.metadata),
                    ..resource
                },
            ),
            outcomes,
        ).requests == Seq::<RequestView>::empty(),
{
    lemma_add_keeps_foreign_tokens(resource.metadata);
}

/// A deletion timestamp asks for deletion whatever finalizers are held, so
/// reconciling a resource again after the operator's finalizer was removed
/// deletes again.
pub proof fn lemma_deletion_wins(resource: PgOprView)
    requires
        resource.metadata.deletion_timestamp is Some,
    ensures
        determine(resource.metadata) == PgOprAction::DeletePrimary,
        determine(delete_patch(resource.metadata.finalizers).apply(resource.metadata))
            == PgOprAction::DeletePrimary,
        determine(add_patch(resource.metadata.finalizers).apply(resource.metadata))
            == PgOprAction::DeletePrimary,
{
}

} // verus!

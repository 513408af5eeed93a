//! What a resource observation asks for, and the steps that answer it.

use crate::crd::v1::{PgOpr, PgOprView};
use crate::error::{Error, ErrorView};
use crate::finalizer::{add_patch, copy_held, delete_patch};
use crate::gateway::{ClusterError, ClusterErrorView, Request, RequestView};
use crate::meta::ObjectMetaView;
use crate::primary::{primary_deploy, primary_manifest, primary_undeploy};
use vstd::prelude::*;

verus! {

/// Action to be taken upon a `pgopr` resource during reconciliation
#[derive(Clone, Copy, Debug, PartialEq, Eq, Structural)]
pub enum PgOprAction {
    /// Create the primary subresources
    CreatePrimary,
    /// Delete all primary subresources
    DeletePrimary,
    /// The resource is in desired state and requires no actions to be taken
    NoOp,
}

/// The classification rule: a deletion timestamp wins, then an absent or
/// empty finalizer list asks for creation, and anything else is settled.
pub open spec fn determine(meta: ObjectMetaView) -> PgOprAction {
    if meta.deletion_timestamp is Some {
        PgOprAction::DeletePrimary
    } else if meta.finalizer_list().len() == 0 {
        PgOprAction::CreatePrimary
    } else {
        PgOprAction::NoOp
    }
}

/// Determine the action that an observation of a `pgopr` resource requires.
pub fn determine_action(pgopr: &PgOpr) -> (action: PgOprAction)
    ensures
        action == determine(pgopr@.metadata),
        pgopr.metadata.deletion_timestamp is Some ==> action == PgOprAction::DeletePrimary,
        pgopr.metadata.deletion_timestamp is None && (pgopr.metadata.finalizers is None
            || pgopr.metadata.finalizers->0@.len() == 0) ==> action == PgOprAction::CreatePrimary,
        pgopr.metadata.deletion_timestamp is None && pgopr.metadata.finalizers is Some
            && pgopr.metadata.finalizers->0@.len() > 0 ==> action == PgOprAction::NoOp,
{
    if pgopr.metadata.deletion_timestamp.is_some() {
        PgOprAction::DeletePrimary
    } else {
        let unset = match &pgopr.metadata.finalizers {
            Some(finalizers) => finalizers.len() == 0,
            None => true,
        };
        if unset {
            PgOprAction::CreatePrimary
        } else {
            PgOprAction::NoOp
        }
    }
}

/// After how many seconds a settled resource is looked at again.
pub const REQUEUE_SECONDS: u64 = 10;

/// After how many seconds a failed reconciliation is tried again.
pub const RETRY_SECONDS: u64 = 5;

/// What a resource without a namespace is refused with.
pub const MISSING_NAMESPACE: &'static str =
    "Expected pgopr resource to be namespaced. Can't deploy to an unknown namespace.";

/// When the scheduler is to reconcile the resource next.
#[derive(Clone, Copy, Debug, PartialEq, Eq, Structural)]
pub enum Directive {
    /// Again after so many seconds, also if nothing changes.
    Requeue { seconds: u64 },
    /// Not before the resource changes.
    AwaitChange,
}

/// The request of a reconciliation that is under way.
#[derive(Clone, Copy, Debug, PartialEq, Eq, Structural)]
pub enum Phase {
    /// Setting the finalizer, before anything is created.
    AddFinalizer,
    /// Creating the workload.
    CreatePrimary,
    /// Deleting the workload.
    DeletePrimary,
    /// Removing the operator's finalizer, after everything is deleted.
    RemoveFinalizer,
}

/// A reconciliation that waits for the answer to its request.
#[derive(Clone, Debug, PartialEq, Eq)]
pub struct Reconciliation {
    pub phase: Phase,
    pub name: String,
    pub namespace: String,
    /// The finalizers that the resource was seen to hold.
    pub finalizers: Option<Vec<String>>,
}

pub struct ReconciliationView {
    pub phase: Phase,
    pub name: Seq<char>,
    pub namespace: Seq<char>,
    pub finalizers: Option<Seq<Seq<char>>>,
}

impl View for Reconciliation {
    type V = ReconciliationView;

    open spec fn view(&self) -> ReconciliationView {
        ReconciliationView {
            phase: self.phase,
            name: self.name@,
            namespace: self.namespace@,
            finalizers: self.finalizers.deep_view(),
        }
    }
}

/// What is to happen next in a reconciliation.
#[derive(Debug, PartialEq, Eq)]
pub enum Step {
    /// Perform `request` and hand its outcome to `state`.
    Perform { request: Request, state: Reconciliation },
    /// The reconciliation is over.
    Finish { result: Result<Directive, Error> },
}

pub enum StepView {
    Perform { request: RequestView, state: ReconciliationView },
    Finish { result: Result<Directive, ErrorView> },
}

/// The mathematical value of a reconciliation's result.
pub open spec fn result_view(result: Result<Directive, Error>) -> Result<Directive, ErrorView> {
    match result {
        Ok(directive) => Ok(directive),
        Err(error) => Err(error@),
    }
}

/// The mathematical value of the outcome of a request.
pub open spec fn outcome_view(outcome: Result<(), ClusterError>) -> Result<(), ClusterErrorView> {
    match outcome {
        Ok(done) => Ok(done),
        Err(error) => Err(error@),
    }
}

impl View for Step {
    type V = StepView;

    open spec fn view(&self) -> StepView {
        match self {
            Step::Perform { request, state } => StepView::Perform {
                request: request@,
                state: state@,
            },
            Step::Finish { result } => StepView::Finish { result: result_view(*result) },
        }
    }
}

impl Phase {
    /// The phase that follows once this one is done, if any.
    pub open spec fn following(self) -> Option<Phase> {
        match self {
            Phase::AddFinalizer => Some(Phase::CreatePrimary),
            Phase::CreatePrimary => None,
            Phase::DeletePrimary => Some(Phase::RemoveFinalizer),
            Phase::RemoveFinalizer => None,
        }
    }

    /// The directive of a reconciliation whose last phase this was.
    pub open spec fn directive(self) -> Directive {
        match self {
            Phase::AddFinalizer | Phase::CreatePrimary => Directive::Requeue {
                seconds: REQUEUE_SECONDS,
            },
            Phase::DeletePrimary | Phase::RemoveFinalizer => Directive::AwaitChange,
        }
    }
}

impl ReconciliationView {
    /// The request of this phase.
    pub open spec fn request(self) -> RequestView {
        match self.phase {
            Phase::AddFinalizer => RequestView::PatchFinalizers {
                name: self.name,
                namespace: self.namespace,
                patch: add_patch(self.finalizers),
            },
            Phase::CreatePrimary => RequestView::CreateDeployment {
                namespace: self.namespace,
                manifest: primary_manifest(self.name, self.namespace),
            },
            Phase::DeletePrimary => RequestView::DeleteDeployment {
                name: self.name,
                namespace: self.namespace,
            },
            Phase::RemoveFinalizer => RequestView::PatchFinalizers {
                name: self.name,
                namespace: self.namespace,
                patch: delete_patch(self.finalizers),
            },
        }
    }

    /// The step that performs this phase.
    pub open spec fn enter(self) -> StepView {
        StepView::Perform { request: self.request(), state: self }
    }

    /// The outcome lets the reconciliation go on: the request succeeded, or
    /// it failed only because the cluster was already as it was wanted.
    pub open spec fn passes(self, outcome: Result<(), ClusterErrorView>) -> bool {
        match outcome {
            Ok(_) => true,
            Err(error) => self.request().settled_by(error),
        }
    }

    /// The step that follows the outcome of this phase's request. A failure
    /// that does not let the reconciliation go on ends it, and is handed up
    /// as it came.
    pub open spec fn resume(self, outcome: Result<(), ClusterErrorView>) -> StepView {
        if self.passes(outcome) {
            match self.phase.following() {
                Some(phase) => (ReconciliationView { phase, ..self }).enter(),
                None => StepView::Finish { result: Ok(self.phase.directive()) },
            }
        } else {
            StepView::Finish { result: Err(ErrorView::KubeError { source: outcome->Err_0 }) }
        }
    }
}

/// The first step that an observation of `resource` asks for. A resource
/// without a namespace is refused before anything is asked of the cluster.
pub open spec fn start(resource: PgOprView) -> StepView {
    match resource.metadata.namespace {
        None => StepView::Finish {
            result: Err(ErrorView::UserInputError(MISSING_NAMESPACE@)),
        },
        Some(namespace) => {
            let name = resource.metadata.name_any();
            match determine(resource.metadata) {
                PgOprAction::CreatePrimary => (ReconciliationView {
                    phase: Phase::AddFinalizer,
                    name,
                    namespace,
                    finalizers: resource.metadata.finalizers,
                }).enter(),
                PgOprAction::DeletePrimary => (ReconciliationView {
                    phase: Phase::DeletePrimary,
                    name,
                    namespace,
                    finalizers: resource.metadata.finalizers,
                }).enter(),
                PgOprAction::NoOp => StepView::Finish {
                    result: Ok(Directive::Requeue { seconds: REQUEUE_SECONDS }),
                },
            }
        },
    }
}

impl Reconciliation {
    fn enter(self) -> (step: Step)
        ensures
            step@ == self@.enter(),
    {
        let request = match self.phase {
            Phase::AddFinalizer => crate::finalizer::add(
                self.name.as_str(),
                self.namespace.as_str(),
                &self.finalizers,
            ),
            Phase::CreatePrimary => primary_deploy(self.name.as_str(), self.namespace.as_str()),
            Phase::DeletePrimary => primary_undeploy(self.name.as_str(), self.namespace.as_str()),
            Phase::RemoveFinalizer => crate::finalizer::delete(
                self.name.as_str(),
                self.namespace.as_str(),
                &self.finalizers,
            ),
        };
        Step::Perform { request, state: self }
    }

    fn settled_by(&self, error: &ClusterError) -> (yes: bool)
        ensures
            yes == self@.request().settled_by(error@),
    {
        match self.phase {
            Phase::CreatePrimary => error.is_already_exists(),
            Phase::DeletePrimary => error.is_not_found(),
            Phase::AddFinalizer | Phase::RemoveFinalizer => false,
        }
    }

    /// Goes on with the reconciliation once the request of this phase has had
    /// its `outcome`.
    pub fn advance(self, outcome: Result<(), ClusterError>) -> (step: Step)
        ensures
            step@ == self@.resume(outcome_view(outcome)),
    {
        match outcome {
            Err(error) => {
                if !self.settled_by(&error) {
                    return Step::Finish { result: Err(Error::KubeError { source: error }) };
                }
            },
            Ok(_) => {},
        }
        match self.phase {
            Phase::AddFinalizer => (Reconciliation {
                phase: Phase::CreatePrimary,
                name: self.name,
                namespace: self.namespace,
                finalizers: self.finalizers,
            }).enter(),
            Phase::DeletePrimary => (Reconciliation {
                phase: Phase::RemoveFinalizer,
                name: self.name,
                namespace: self.namespace,
                finalizers: self.finalizers,
            }).enter(),
            Phase::CreatePrimary => Step::Finish {
                result: Ok(Directive::Requeue { seconds: REQUEUE_SECONDS }),
            },
            Phase::RemoveFinalizer => Step::Finish { result: Ok(Directive::AwaitChange) },
        }
    }
}

/// Begins the reconciliation of one observation of a `pgopr` resource.
pub fn reconcile(pgopr: &PgOpr) -> (step: Step)
    ensures
        step@ == start(pgopr@),
{
    let namespace = match pgopr.metadata.namespace() {
        None => {
            return Step::Finish {
                result: Err(Error::UserInputError(MISSING_NAMESPACE.to_owned())),
            };
        },
        Some(namespace) => namespace,
    };
    match determine_action(pgopr) {
        PgOprAction::CreatePrimary => (Reconciliation {
            phase: Phase::AddFinalizer,
            name: pgopr.metadata.name_any(),
            namespace,
            finalizers: copy_held(&pgopr.metadata.finalizers),
        }).enter(),
        PgOprAction::DeletePrimary => (Reconciliation {
            phase: Phase::DeletePrimary,
            name: pgopr.metadata.name_any(),
            namespace,
            finalizers: copy_held(&pgopr.metadata.finalizers),
        }).enter(),
        PgOprAction::NoOp => Step::Finish {
            result: Ok(Directive::Requeue { seconds: REQUEUE_SECONDS }),
        },
    }
}

/// The directive after a failed reconciliation: a short, fixed delay,
/// whatever the error.
pub fn on_error(error: &Error) -> (directive: Directive)
    ensures
        directive == (Directive::Requeue { seconds: RETRY_SECONDS }),
{
    Directive::Requeue { seconds: RETRY_SECONDS }
}

} // verus!

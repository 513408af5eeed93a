use pgopr::crd::v1::{PgOpr, PgOprSpec};
use pgopr::finalizer::{FinalizerPatch, MetadataPatch};
use pgopr::gateway::{ClusterError, Request};
use pgopr::meta::{ObjectMeta, Timestamp};
use pgopr::primary::primary_create;
use pgopr::reconciler::{
    determine_action, on_error, reconcile, Directive, PgOprAction, Phase, Reconciliation, Step,
};
use pgopr::Error;

const TOKEN: &str = "generals.pgopr.io/finalizer";

fn resource(
    name: &str,
    namespace: Option<&str>,
    finalizers: Option<Vec<&str>>,
    deleted: bool,
) -> PgOpr {
    PgOpr {
        metadata: ObjectMeta {
            name: Some(name.to_string()),
            generate_name: None,
            namespace: namespace.map(|n| n.to_string()),
            resource_version: Some("41".to_string()),
            finalizers: finalizers.map(|f| f.into_iter().map(|t| t.to_string()).collect()),
            deletion_timestamp: if deleted {
                Some(Timestamp { seconds: 1_700_000_000, nanoseconds: 0 })
            } else {
                None
            },
        },
        spec: PgOprSpec { storage: 5 },
    }
}

fn api_error(code: u16, reason: &str) -> ClusterError {
    ClusterError::Api {
        code,
        reason: reason.to_string(),
        message: "refused".to_string(),
    }
}

fn perform(step: Step) -> (Request, Reconciliation) {
    match step {
        Step::Perform { request, state } => (request, state),
        Step::Finish { result } => panic!("the reconciliation is over: {:?}", result),
    }
}

fn add_request(name: &str, namespace: &str) -> Request {
    Request::PatchFinalizers {
        name: name.to_string(),
        namespace: namespace.to_string(),
        patch: FinalizerPatch { metadata: MetadataPatch { finalizers: Some(vec![TOKEN.to_string()]) } },
    }
}

fn remove_request(name: &str, namespace: &str) -> Request {
    Request::PatchFinalizers {
        name: name.to_string(),
        namespace: namespace.to_string(),
        patch: FinalizerPatch { metadata: MetadataPatch { finalizers: None } },
    }
}

#[test]
fn deletion_timestamp_asks_for_deletion() {
    for finalizers in [None, Some(vec![]), Some(vec![TOKEN]), Some(vec!["other", TOKEN])] {
        let r = resource("pg1", Some("default"), finalizers, true);
        assert_eq!(determine_action(&r), PgOprAction::DeletePrimary);
    }
}

#[test]
fn no_finalizers_ask_for_creation() {
    let absent = resource("pg1", Some("default"), None, false);
    assert_eq!(determine_action(&absent), PgOprAction::CreatePrimary);
    let empty = resource("pg1", Some("default"), Some(vec![]), false);
    assert_eq!(determine_action(&empty), PgOprAction::CreatePrimary);
}

#[test]
fn finalizers_without_deletion_ask_for_nothing() {
    let own = resource("pg1", Some("default"), Some(vec![TOKEN]), false);
    assert_eq!(determine_action(&own), PgOprAction::NoOp);
    let foreign = resource("pg1", Some("default"), Some(vec!["someone/else"]), false);
    assert_eq!(determine_action(&foreign), PgOprAction::NoOp);
}

#[test]
fn classification_ignores_the_namespace() {
    let r = resource("pg1", None, None, false);
    assert_eq!(determine_action(&r), PgOprAction::CreatePrimary);
}

#[test]
fn first_seen_resource_is_provisioned() {
    let r = resource("pg1", Some("default"), Some(vec![]), false);
    assert_eq!(determine_action(&r), PgOprAction::CreatePrimary);

    let (first, state) = perform(reconcile(&r));
    assert_eq!(first, add_request("pg1", "default"));
    assert_eq!(state.phase, Phase::AddFinalizer);

    let (second, state) = perform(state.advance(Ok(())));
    assert_eq!(
        second,
        Request::CreateDeployment {
            namespace: "default".to_string(),
            manifest: primary_create("pg1", "default"),
        }
    );
    assert_eq!(state.phase, Phase::CreatePrimary);

    let last = state.advance(Ok(()));
    assert_eq!(last, Step::Finish { result: Ok(Directive::Requeue { seconds: 10 }) });
}

#[test]
fn deleted_resource_is_torn_down() {
    let r = resource("pg1", Some("default"), Some(vec![TOKEN]), true);
    assert_eq!(determine_action(&r), PgOprAction::DeletePrimary);

    let (first, state) = perform(reconcile(&r));
    assert_eq!(
        first,
        Request::DeleteDeployment { name: "pg1".to_string(), namespace: "default".to_string() }
    );

    let (second, state) = perform(state.advance(Ok(())));
    assert_eq!(second, remove_request("pg1", "default"));
    let patch = match &second {
        Request::PatchFinalizers { patch, .. } => patch.clone(),
        other => panic!("unexpected request {:?}", other),
    };
    let merged = patch.apply(&r.metadata);
    assert_eq!(merged.finalizers, None);

    let last = state.advance(Ok(()));
    assert_eq!(last, Step::Finish { result: Ok(Directive::AwaitChange) });
}

#[test]
fn deleted_resource_stays_held_by_other_holders() {
    let r = resource("pg1", Some("default"), Some(vec!["other.example.io/hold", TOKEN]), true);
    let (_, state) = perform(reconcile(&r));
    let (second, state) = perform(state.advance(Ok(())));
    assert_eq!(
        second,
        Request::PatchFinalizers {
            name: "pg1".to_string(),
            namespace: "default".to_string(),
            patch: FinalizerPatch {
                metadata: MetadataPatch {
                    finalizers: Some(vec!["other.example.io/hold".to_string()]),
                },
            },
        }
    );
    assert_eq!(state.advance(Ok(())), Step::Finish { result: Ok(Directive::AwaitChange) });
}

#[test]
fn the_state_carries_the_finalizers_that_were_seen() {
    let r = resource("pg1", Some("default"), Some(vec!["other.example.io/hold", TOKEN]), true);
    let (_, state) = perform(reconcile(&r));
    assert_eq!(state.finalizers, r.metadata.finalizers);
    assert_eq!(state.name, "pg1");
    assert_eq!(state.namespace, "default");
    let (_, state) = perform(state.advance(Ok(())));
    assert_eq!(state.phase, Phase::RemoveFinalizer);
    assert_eq!(state.finalizers, r.metadata.finalizers);
}

#[test]
fn settled_resource_is_left_alone() {
    let r = resource("pg1", Some("default"), Some(vec![TOKEN]), false);
    assert_eq!(determine_action(&r), PgOprAction::NoOp);
    assert_eq!(
        reconcile(&r),
        Step::Finish { result: Ok(Directive::Requeue { seconds: 10 }) }
    );
}

#[test]
fn resource_without_namespace_is_refused() {
    for (finalizers, deleted) in [(None, false), (Some(vec![TOKEN]), true), (Some(vec![TOKEN]), false)] {
        let r = resource("pg1", None, finalizers, deleted);
        let step = reconcile(&r);
        assert_eq!(
            step,
            Step::Finish {
                result: Err(Error::UserInputError(
                    "Expected pgopr resource to be namespaced. Can't deploy to an unknown namespace."
                        .to_string()
                )),
            }
        );
    }
}

#[test]
fn failed_finalizer_patch_creates_nothing() {
    let r = resource("pg1", Some("default"), None, false);
    let (_, state) = perform(reconcile(&r));
    let failure = api_error(404, "NotFound");
    let step = state.advance(Err(failure.clone()));
    assert_eq!(step, Step::Finish { result: Err(Error::KubeError { source: failure }) });
}

#[test]
fn finalizer_patch_is_not_settled_by_already_exists() {
    let r = resource("pg1", Some("default"), None, false);
    let (_, state) = perform(reconcile(&r));
    let failure = api_error(409, "AlreadyExists");
    let step = state.advance(Err(failure.clone()));
    assert_eq!(step, Step::Finish { result: Err(Error::KubeError { source: failure }) });
}

#[test]
fn existing_workload_is_as_good_as_created() {
    let r = resource("pg1", Some("default"), None, false);
    let (_, state) = perform(reconcile(&r));
    let (_, state) = perform(state.advance(Ok(())));
    let step = state.advance(Err(api_error(409, "AlreadyExists")));
    assert_eq!(step, Step::Finish { result: Ok(Directive::Requeue { seconds: 10 }) });
}

#[test]
fn conflict_on_creation_is_an_error() {
    let r = resource("pg1", Some("default"), None, false);
    let (_, state) = perform(reconcile(&r));
    let (_, state) = perform(state.advance(Ok(())));
    let failure = api_error(409, "Conflict");
    let step = state.advance(Err(failure.clone()));
    assert_eq!(step, Step::Finish { result: Err(Error::KubeError { source: failure }) });
}

#[test]
fn missing_workload_is_as_good_as_deleted() {
    let r = resource("pg1", Some("default"), Some(vec![]), true);
    let (first, state) = perform(reconcile(&r));
    assert_eq!(
        first,
        Request::DeleteDeployment { name: "pg1".to_string(), namespace: "default".to_string() }
    );
    let (second, state) = perform(state.advance(Err(api_error(404, "NotFound"))));
    assert_eq!(second, remove_request("pg1", "default"));
    assert_eq!(
        state.advance(Ok(())),
        Step::Finish { result: Ok(Directive::AwaitChange) }
    );
}

#[test]
fn failed_deletion_keeps_the_finalizers() {
    let r = resource("pg1", Some("default"), Some(vec![TOKEN]), true);
    let (_, state) = perform(reconcile(&r));
    let failure = ClusterError::Transport { message: "connection reset".to_string() };
    let step = state.advance(Err(failure.clone()));
    assert_eq!(step, Step::Finish { result: Err(Error::KubeError { source: failure }) });
}

#[test]
fn failed_finalizer_removal_is_an_error() {
    let r = resource("pg1", Some("default"), Some(vec![TOKEN]), true);
    let (_, state) = perform(reconcile(&r));
    let (_, state) = perform(state.advance(Ok(())));
    let failure = api_error(404, "NotFound");
    let step = state.advance(Err(failure.clone()));
    assert_eq!(step, Step::Finish { result: Err(Error::KubeError { source: failure }) });
}

#[test]
fn name_falls_back_to_generated_prefix_then_to_nothing() {
    let mut r = resource("ignored", Some("default"), None, false);
    r.metadata.name = None;
    r.metadata.generate_name = Some("pg-".to_string());
    assert_eq!(r.metadata.name_any(), "pg-");
    let (first, _) = perform(reconcile(&r));
    assert_eq!(first, add_request("pg-", "default"));

    r.metadata.generate_name = None;
    assert_eq!(r.metadata.name_any(), "");
    let (first, _) = perform(reconcile(&r));
    assert_eq!(first, add_request("", "default"));

    r.metadata.name = Some("pg1".to_string());
    r.metadata.generate_name = Some("pg-".to_string());
    assert_eq!(r.metadata.name_any(), "pg1");
    assert_eq!(r.metadata.namespace(), Some("default".to_string()));
}

#[test]
fn reconciling_again_after_provisioning_changes_nothing() {
    let r = resource("pg1", Some("default"), None, false);
    let (first, _) = perform(reconcile(&r));
    let patch = match first {
        Request::PatchFinalizers { patch, .. } => patch,
        other => panic!("unexpected request {:?}", other),
    };
    let observed = PgOpr { metadata: patch.apply(&r.metadata), spec: r.spec };
    assert_eq!(determine_action(&observed), PgOprAction::NoOp);
    assert_eq!(
        reconcile(&observed),
        Step::Finish { result: Ok(Directive::Requeue { seconds: 10 }) }
    );
}

#[test]
fn every_error_is_retried_after_five_seconds() {
    let user = Error::UserInputError("no namespace".to_string());
    assert_eq!(on_error(&user), Directive::Requeue { seconds: 5 });
    let kube = Error::KubeError { source: api_error(403, "Forbidden") };
    assert_eq!(on_error(&kube), Directive::Requeue { seconds: 5 });
    let transport = Error::from(ClusterError::Transport { message: "timeout".to_string() });
    assert_eq!(on_error(&transport), Directive::Requeue { seconds: 5 });
}

use pgopr::crd::{crd_deploy, crd_generate, crd_undeploy};
use pgopr::gateway::{ClusterError, Request};
use pgopr::handlers::cluster::{
    handle_install, handle_provision_primary, handle_retire_primary, handle_uninstall,
};
use pgopr::handlers::generate::{handle_generate, GenerateType};
use pgopr::manifest::{Document, GeneratedFile};
use pgopr::persistent::{
    persistent_generate, persistent_volume_claim_deploy, persistent_volume_claim_undeploy,
    persistent_volume_deploy, persistent_volume_undeploy, pv_create, pvc_create,
};
use pgopr::primary::{primary_create, primary_deploy, primary_generate, primary_undeploy};
use pgopr::services::{service_create, service_deploy, service_generate, service_undeploy};
use pgopr::Error;

fn api_error(code: u16, reason: &str, message: &str) -> ClusterError {
    ClusterError::Api { code, reason: reason.to_string(), message: message.to_string() }
}

#[test]
fn install_registers_the_definition() {
    assert_eq!(
        handle_install(),
        vec![Request::CreateCrd { established: "pgopr.io".to_string(), timeout_seconds: 10 }]
    );
    assert_eq!(handle_install(), vec![crd_deploy()]);
}

#[test]
fn uninstall_deletes_the_definition() {
    assert_eq!(
        handle_uninstall(),
        vec![Request::DeleteCrd { name: "pgoprs.pgopr.io".to_string() }]
    );
    assert_eq!(handle_uninstall(), vec![crd_undeploy()]);
}

#[test]
fn provisioning_creates_the_four_dependents_in_order() {
    let expected = vec![
        Request::CreatePersistentVolume { manifest: pv_create("postgresql-pv-volume", 5) },
        Request::CreatePersistentVolumeClaim {
            namespace: "default".to_string(),
            manifest: pvc_create("postgresql-pv-claim", "default", 5),
        },
        Request::CreateDeployment {
            namespace: "default".to_string(),
            manifest: primary_create("postgresql", "default"),
        },
        Request::CreateService {
            namespace: "default".to_string(),
            manifest: service_create("postgresql", "default"),
        },
    ];
    assert_eq!(handle_provision_primary(), expected);
}

#[test]
fn retiring_deletes_the_four_dependents_in_reverse() {
    let expected = vec![
        Request::DeleteService {
            name: "postgresql".to_string(),
            namespace: "default".to_string(),
        },
        Request::DeleteDeployment {
            name: "postgresql".to_string(),
            namespace: "default".to_string(),
        },
        Request::DeletePersistentVolumeClaim {
            name: "postgresql-pv-claim".to_string(),
            namespace: "default".to_string(),
        },
        Request::DeletePersistentVolume { name: "postgresql-pv-volume".to_string() },
    ];
    assert_eq!(handle_retire_primary(), expected);
}

#[test]
fn deploy_requests_carry_the_synthesized_manifest() {
    assert_eq!(
        persistent_volume_deploy("v", 3),
        Request::CreatePersistentVolume { manifest: pv_create("v", 3) }
    );
    assert_eq!(
        persistent_volume_claim_deploy("c", "n", 3),
        Request::CreatePersistentVolumeClaim {
            namespace: "n".to_string(),
            manifest: pvc_create("c", "n", 3),
        }
    );
    assert_eq!(
        primary_deploy("p", "n"),
        Request::CreateDeployment { namespace: "n".to_string(), manifest: primary_create("p", "n") }
    );
    assert_eq!(
        service_deploy("s", "n"),
        Request::CreateService { namespace: "n".to_string(), manifest: service_create("s", "n") }
    );
}

#[test]
fn undeploy_requests_name_their_target() {
    assert_eq!(
        persistent_volume_undeploy("v"),
        Request::DeletePersistentVolume { name: "v".to_string() }
    );
    assert_eq!(
        persistent_volume_claim_undeploy("c", "n"),
        Request::DeletePersistentVolumeClaim { name: "c".to_string(), namespace: "n".to_string() }
    );
    assert_eq!(
        primary_undeploy("p", "n"),
        Request::DeleteDeployment { name: "p".to_string(), namespace: "n".to_string() }
    );
    assert_eq!(
        service_undeploy("s", "n"),
        Request::DeleteService { name: "s".to_string(), namespace: "n".to_string() }
    );
}

#[test]
fn generate_types_by_name() {
    assert_eq!(GenerateType::parse("crd"), Some(GenerateType::Crd));
    assert_eq!(GenerateType::parse("service"), Some(GenerateType::Service));
    assert_eq!(GenerateType::parse("persistent"), Some(GenerateType::Persistent));
    assert_eq!(GenerateType::parse("primary"), Some(GenerateType::Primary));
    assert_eq!(GenerateType::parse("Primary"), None);
    assert_eq!(GenerateType::parse(""), None);
    assert_eq!(GenerateType::parse("crds"), None);
}

#[test]
fn generate_writes_default_manifests_to_fixed_files() {
    let crd = handle_generate("crd").unwrap();
    assert_eq!(
        crd,
        vec![GeneratedFile { file_name: "pgopr-crd.yaml".to_string(), document: Document::Crd }]
    );
    let service = handle_generate("service").unwrap();
    assert_eq!(
        service,
        vec![GeneratedFile {
            file_name: "pgopr-service.yaml".to_string(),
            document: Document::Service(service_create("postgresql", "default")),
        }]
    );
    let persistent = handle_generate("persistent").unwrap();
    assert_eq!(
        persistent,
        vec![
            GeneratedFile {
                file_name: "pgopr-pv.yaml".to_string(),
                document: Document::PersistentVolume(pv_create("postgresql-pv-volume", 5)),
            },
            GeneratedFile {
                file_name: "pgopr-pvc.yaml".to_string(),
                document: Document::PersistentVolumeClaim(
                    pvc_create("postgresql-pv-claim", "default", 5)
                ),
            },
        ]
    );
    let primary = handle_generate("primary").unwrap();
    assert_eq!(
        primary,
        vec![GeneratedFile {
            file_name: "pgopr-primary.yaml".to_string(),
            document: Document::Deployment(primary_create("postgresql", "default")),
        }]
    );
}

#[test]
fn generate_refuses_unknown_types() {
    assert_eq!(handle_generate("secret"), None);
    assert_eq!(handle_generate(""), None);
}

#[test]
fn generate_functions_agree_with_the_handler() {
    assert_eq!(GenerateType::Crd.generate(), vec![crd_generate()]);
    assert_eq!(GenerateType::Service.generate(), vec![service_generate()]);
    assert_eq!(GenerateType::Primary.generate(), vec![primary_generate()]);
    let (volume, claim) = persistent_generate();
    assert_eq!(GenerateType::Persistent.generate(), vec![volume, claim]);
}

#[test]
fn reasons_of_refusals() {
    let exists = api_error(409, "AlreadyExists", "deployments \"pg1\" already exists");
    let missing = api_error(404, "NotFound", "deployments \"pg1\" not found");
    let conflict = api_error(409, "Conflict", "the object has been modified");
    let transport = ClusterError::Transport { message: "NotFound".to_string() };

    assert!(exists.is_already_exists() && !exists.is_not_found());
    assert!(missing.is_not_found() && !missing.is_already_exists());
    assert!(!conflict.is_not_found() && !conflict.is_already_exists());
    assert!(!transport.is_not_found() && !transport.is_already_exists());
    assert!(!api_error(404, "notfound", "").is_not_found());
    assert!(!api_error(404, "", "").is_not_found());
}

#[test]
fn errors_in_words() {
    let user = Error::UserInputError("no namespace".to_string());
    assert_eq!(user.message(), "Invalid pgopr CRD: no namespace");
    let kube = Error::KubeError { source: api_error(404, "NotFound", "pgoprs \"pg1\" not found") };
    assert_eq!(
        kube.message(),
        "Kubernetes reported error: pgoprs \"pg1\" not found: NotFound"
    );
    let transport = Error::KubeError {
        source: ClusterError::Transport { message: "connection refused".to_string() },
    };
    assert_eq!(transport.message(), "Kubernetes reported error: connection refused");
}

#[test]
fn a_cluster_error_becomes_a_kube_error() {
    let source = api_error(500, "InternalError", "boom");
    assert_eq!(Error::from(source.clone()), Error::KubeError { source });
}

#[test]
fn identity_of_the_custom_resource() {
    assert_eq!(pgopr::crd::GROUP, "pgopr.io");
    assert_eq!(pgopr::crd::VERSION, "v1");
    assert_eq!(pgopr::crd::KIND, "pgopr");
    assert_eq!(pgopr::crd::PLURAL, "pgoprs");
    assert_eq!(
        pgopr::crd::CRD_NAME,
        format!("{}.{}", pgopr::crd::PLURAL, pgopr::crd::GROUP)
    );
}

#[test]
fn provisioning_defaults() {
    assert_eq!(pgopr::manifest::DEFAULT_NAME, "postgresql");
    assert_eq!(pgopr::manifest::DEFAULT_NAMESPACE, "default");
    assert_eq!(pgopr::manifest::DEFAULT_STORAGE, 5);
    assert_eq!(pgopr::persistent::VOLUME_NAME, "postgresql-pv-volume");
    assert_eq!(pgopr::persistent::CLAIM_NAME, "postgresql-pv-claim");
}

#[test]
fn storage_of_the_spec_may_be_zero() {
    let spec = pgopr::crd::v1::PgOprSpec { storage: 0 };
    assert_eq!(spec.storage, 0);
    let general = pgopr::crd::v1::GeneralSpec { storage: 0 };
    assert_eq!(general, pgopr::crd::v1::GeneralSpec { storage: 0 });
}

use pgopr::meta::Label;
use pgopr::persistent::{
    pv_create, pvc_create, PersistentVolume, PersistentVolumeClaim, ResourceQuantity,
};
use pgopr::primary::{
    primary_create, ClaimVolume, Container, Deployment, EnvVar, VolumeMount,
};
use pgopr::quantity::{decimal_text, storage_quantity};
use pgopr::services::{service_create, Service};

fn label(key: &str, value: &str) -> Label {
    Label { key: key.to_string(), value: value.to_string() }
}

fn storage(quantity: &str) -> Vec<ResourceQuantity> {
    vec![ResourceQuantity { resource: "storage".to_string(), quantity: quantity.to_string() }]
}

#[test]
fn volume_capacity_is_the_size_in_gibibytes() {
    let pv = pv_create("postgresql-pv-volume", 5);
    assert_eq!(pv.capacity.len(), 1);
    assert_eq!(pv.capacity[0].resource, "storage");
    assert_eq!(pv.capacity[0].quantity, "5Gi");
}

#[test]
fn volume_manifest_is_exact() {
    let expected = PersistentVolume {
        name: "postgresql-pv-volume".to_string(),
        labels: vec![label("app", "postgresql"), label("type", "local")],
        storage_class_name: "manual".to_string(),
        capacity: storage("5Gi"),
        access_modes: vec!["ReadWriteMany".to_string()],
        host_path: "/tmp/kind".to_string(),
    };
    assert_eq!(pv_create("postgresql-pv-volume", 5), expected);
}

#[test]
fn claim_manifest_is_exact() {
    let expected = PersistentVolumeClaim {
        name: "postgresql-pv-claim".to_string(),
        namespace: "default".to_string(),
        labels: vec![label("app", "postgresql")],
        storage_class_name: "manual".to_string(),
        access_modes: vec!["ReadWriteMany".to_string()],
        requests: storage("5Gi"),
    };
    assert_eq!(pvc_create("postgresql-pv-claim", "default", 5), expected);
}

#[test]
fn workload_manifest_is_exact() {
    let expected = Deployment {
        name: "pg1".to_string(),
        namespace: "db".to_string(),
        replicas: 1,
        selector: vec![label("app", "pg1")],
        pod_labels: vec![label("app", "pg1")],
        containers: vec![Container {
            name: "pg1".to_string(),
            image: "postgres:13.7".to_string(),
            image_pull_policy: "IfNotPresent".to_string(),
            ports: vec![5432],
            env: vec![
                EnvVar { name: "POSTGRES_DB".to_string(), value: "mydb".to_string() },
                EnvVar { name: "POSTGRES_USER".to_string(), value: "myuser".to_string() },
                EnvVar { name: "POSTGRES_PASSWORD".to_string(), value: "mypass".to_string() },
            ],
            volume_mounts: vec![VolumeMount {
                name: "mydb".to_string(),
                mount_path: "/var/lib/postgresql/data".to_string(),
            }],
        }],
        volumes: vec![ClaimVolume {
            name: "mydb".to_string(),
            claim_name: "postgresql-pv-claim".to_string(),
        }],
    };
    assert_eq!(primary_create("pg1", "db"), expected);
}

#[test]
fn service_manifest_is_exact() {
    let expected = Service {
        name: "postgresql".to_string(),
        namespace: "default".to_string(),
        labels: vec![label("app", "postgresql")],
        type_: "NodePort".to_string(),
        ports: vec![5432],
        selector: vec![label("app", "postgresql")],
    };
    assert_eq!(service_create("postgresql", "default"), expected);
}

#[test]
fn service_selects_the_pods_of_the_workload_of_its_name() {
    for name in ["pg1", "postgresql", "other", ""] {
        let service = service_create(name, "db");
        let workload = primary_create(name, "db");
        assert_eq!(service.name, name);
        assert_eq!(service.namespace, "db");
        assert_eq!(service.selector, vec![label("app", name)]);
        assert_eq!(service.selector, workload.pod_labels);
        assert_eq!(workload.selector, workload.pod_labels);
        assert_eq!(service.ports, workload.containers[0].ports);
        assert_eq!(service.ports, vec![5432]);
        assert_eq!(service.labels, vec![label("app", "postgresql")]);
    }
}

#[test]
fn synthesis_twice_gives_equal_manifests() {
    assert_eq!(pv_create("v", 7), pv_create("v", 7));
    assert_eq!(pvc_create("c", "n", 7), pvc_create("c", "n", 7));
    assert_eq!(primary_create("p", "n"), primary_create("p", "n"));
    assert_eq!(service_create("s", "n"), service_create("s", "n"));
}

#[test]
fn synthesis_follows_its_inputs() {
    assert_ne!(pv_create("v", 7), pv_create("v", 8));
    assert_ne!(pv_create("v", 7), pv_create("w", 7));
    assert_ne!(pvc_create("c", "n", 7), pvc_create("c", "m", 7));
    assert_ne!(primary_create("p", "n"), primary_create("q", "n"));
    assert_ne!(service_create("s", "n"), service_create("s", "m"));
}

#[test]
fn zero_storage_is_a_valid_size() {
    assert_eq!(pv_create("v", 0).capacity, storage("0Gi"));
    assert_eq!(pvc_create("c", "n", 0).requests, storage("0Gi"));
}

#[test]
fn decimal_numerals() {
    assert_eq!(decimal_text(0), "0");
    assert_eq!(decimal_text(9), "9");
    assert_eq!(decimal_text(10), "10");
    assert_eq!(decimal_text(1234567890), "1234567890");
    assert_eq!(decimal_text(u32::MAX), "4294967295");
    assert_eq!(decimal_text(100), "100");
}

#[test]
fn decimal_numerals_agree_with_std() {
    let mut n: u32 = 1;
    for _ in 0..40 {
        assert_eq!(decimal_text(n), n.to_string());
        n = n.wrapping_mul(7).wrapping_add(3);
    }
}

#[test]
fn storage_quantities() {
    assert_eq!(storage_quantity(5), "5Gi");
    assert_eq!(storage_quantity(0), "0Gi");
    assert_eq!(storage_quantity(1024), "1024Gi");
}

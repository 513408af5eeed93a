//! The workload of a primary instance: one PostgreSQL container whose data
//! directory is backed by the persistent volume claim.

use crate::gateway::{Request, RequestView};
use crate::manifest::{
    Document, DocumentView, GeneratedFile, GeneratedFileView, DEFAULT_NAME, DEFAULT_NAMESPACE,
};
use crate::meta::{Label, LabelView};
use crate::persistent::CLAIM_NAME;
use vstd::prelude::*;

verus! {

/// The container image of a primary instance.
pub const IMAGE: &'static str = "postgres:13.7";

/// The port PostgreSQL listens on.
pub const POSTGRESQL_PORT: i32 = 5432;

/// An environment variable of a container.
#[derive(Clone, Debug, PartialEq, Eq)]
pub struct EnvVar {
    pub name: String,
    pub value: String,
}

pub struct EnvVarView {
    pub name: Seq<char>,
    pub value: Seq<char>,
}

impl View for EnvVar {
    type V = EnvVarView;

    open spec fn view(&self) -> EnvVarView {
        EnvVarView { name: self.name@, value: self.value@ }
    }
}

impl DeepView for EnvVar {
    type V = EnvVarView;

    open spec fn deep_view(&self) -> EnvVarView {
        self@
    }
}

impl EnvVar {
    pub fn new(name: &str, value: &str) -> (var: EnvVar)
        ensures
            var@ == (EnvVarView { name: name@, value: value@ }),
    {
        EnvVar { name: name.to_owned(), value: value.to_owned() }
    }
}

/// Where a container mounts one of the volumes of its pod.
#[derive(Clone, Debug, PartialEq, Eq)]
pub struct VolumeMount {
    pub name: String,
    pub mount_path: String,
}

pub struct VolumeMountView {
    pub name: Seq<char>,
    pub mount_path: Seq<char>,
}

impl View for VolumeMount {
    type V = VolumeMountView;

    open spec fn view(&self) -> VolumeMountView {
        VolumeMountView { name: self.name@, mount_path: self.mount_path@ }
    }
}

impl DeepView for VolumeMount {
    type V = VolumeMountView;

    open spec fn deep_view(&self) -> VolumeMountView {
        self@
    }
}

/// A volume of a pod that is backed by a persistent volume claim.
#[derive(Clone, Debug, PartialEq, Eq)]
pub struct ClaimVolume {
    pub name: String,
    pub claim_name: String,
}

pub struct ClaimVolumeView {
    pub name: Seq<char>,
    pub claim_name: Seq<char>,
}

impl View for ClaimVolume {
    type V = ClaimVolumeView;

    open spec fn view(&self) -> ClaimVolumeView {
        ClaimVolumeView { name: self.name@, claim_name: self.claim_name@ }
    }
}

impl DeepView for ClaimVolume {
    type V = ClaimVolumeView;

    open spec fn deep_view(&self) -> ClaimVolumeView {
        self@
    }
}

/// One container of a pod.
#[derive(Clone, Debug, PartialEq, Eq)]
pub struct Container {
    pub name: String,
    pub image: String,
    pub image_pull_policy: String,
    pub ports: Vec<i32>,
    pub env: Vec<EnvVar>,
    pub volume_mounts: Vec<VolumeMount>,
}

pub struct ContainerView {
    pub name: Seq<char>,
    pub image: Seq<char>,
    pub image_pull_policy: Seq<char>,
    pub ports: Seq<i32>,
    pub env: Seq<EnvVarView>,
    pub volume_mounts: Seq<VolumeMountView>,
}

impl View for Container {
    type V = ContainerView;

    open spec fn view(&self) -> ContainerView {
        ContainerView {
            name: self.name@,
            image: self.image@,
            image_pull_policy: self.image_pull_policy@,
            ports: self.ports@,
            env: self.env.deep_view(),
            volume_mounts: self.volume_mounts.deep_view(),
        }
    }
}

impl DeepView for Container {
    type V = ContainerView;

    open spec fn deep_view(&self) -> ContainerView {
        self@
    }
}

/// The workload manifest: a deployment of identical pods.
#[derive(Clone, Debug, PartialEq, Eq)]
pub struct Deployment {
    pub name: String,
    pub namespace: String,
    pub replicas: i32,
    /// The labels by which the deployment finds its pods.
    pub selector: Vec<Label>,
    /// The labels that each pod carries.
    pub pod_labels: Vec<Label>,
    pub containers: Vec<Container>,
    pub volumes: Vec<ClaimVolume>,
}

pub struct DeploymentView {
    pub name: Seq<char>,
    pub namespace: Seq<char>,
    pub replicas: i32,
    pub selector: Seq<LabelView>,
    pub pod_labels: Seq<LabelView>,
    pub containers: Seq<ContainerView>,
    pub volumes: Seq<ClaimVolumeView>,
}

impl View for Deployment {
    type V = DeploymentView;

    open spec fn view(&self) -> DeploymentView {
        DeploymentView {
            name: self.name@,
            namespace: self.namespace@,
            replicas: self.replicas,
            selector: self.selector.deep_view(),
            pod_labels: self.pod_labels.deep_view(),
            containers: self.containers.deep_view(),
            volumes: self.volumes.deep_view(),
        }
    }
}

/// The environment of the PostgreSQL container: database, user and password.
pub open spec fn primary_env() -> Seq<EnvVarView> {
    seq![
        EnvVarView { name: "POSTGRES_DB"@, value: "mydb"@ },
        EnvVarView { name: "POSTGRES_USER"@, value: "myuser"@ },
        EnvVarView { name: "POSTGRES_PASSWORD"@, value: "mypass"@ },
    ]
}

/// The single container of a primary named `name`.
pub open spec fn primary_container(name: Seq<char>) -> ContainerView {
    ContainerView {
        name,
        image: IMAGE@,
        image_pull_policy: "IfNotPresent"@,
        ports: seq![POSTGRESQL_PORT],
        env: primary_env(),
        volume_mounts: seq![
            VolumeMountView { name: "mydb"@, mount_path: "/var/lib/postgresql/data"@ },
        ],
    }
}

/// The workload of a primary named `name` in `namespace`: one replica of one
/// container, selected by the label `app` = `name`, with the data directory
/// on the claim [`CLAIM_NAME`].
pub open spec fn primary_manifest(name: Seq<char>, namespace: Seq<char>) -> DeploymentView {
    DeploymentView {
        name,
        namespace,
        replicas: 1,
        selector: seq![LabelView { key: "app"@, value: name }],
        pod_labels: seq![LabelView { key: "app"@, value: name }],
        containers: seq![primary_container(name)],
        volumes: seq![ClaimVolumeView { name: "mydb"@, claim_name: CLAIM_NAME@ }],
    }
}

fn primary_env_vars() -> (env: Vec<EnvVar>)
    ensures
        env.deep_view() == primary_env(),
{
    let mut env: Vec<EnvVar> = Vec::new();
    env.push(EnvVar::new("POSTGRES_DB", "mydb"));
    env.push(EnvVar::new("POSTGRES_USER", "myuser"));
    env.push(EnvVar::new("POSTGRES_PASSWORD", "mypass"));
    assert(env.deep_view() =~= primary_env());
    env
}

fn primary_container_of(name: &str) -> (container: Container)
    ensures
        container@ == primary_container(name@),
{
    let mut ports: Vec<i32> = Vec::new();
    ports.push(POSTGRESQL_PORT);
    let mut volume_mounts: Vec<VolumeMount> = Vec::new();
    volume_mounts.push(
        VolumeMount { name: "mydb".to_owned(), mount_path: "/var/lib/postgresql/data".to_owned() },
    );
    let container = Container {
        name: name.to_owned(),
        image: IMAGE.to_owned(),
        image_pull_policy: "IfNotPresent".to_owned(),
        ports,
        env: primary_env_vars(),
        volume_mounts,
    };
    assert(container@.ports =~= primary_container(name@).ports);
    assert(container@.volume_mounts =~= primary_container(name@).volume_mounts);
    container
}

/// Synthesizes the workload of a primary instance.
pub fn primary_create(name: &str, namespace: &str) -> (deployment: Deployment)
    ensures
        deployment@ == primary_manifest(name@, namespace@),
{
    let mut selector: Vec<Label> = Vec::new();
    selector.push(Label::new("app", name));
    let mut pod_labels: Vec<Label> = Vec::new();
    pod_labels.push(Label::new("app", name));
    let mut containers: Vec<Container> = Vec::new();
    containers.push(primary_container_of(name));
    let mut volumes: Vec<ClaimVolume> = Vec::new();
    volumes.push(
        ClaimVolume { name: "mydb".to_owned(), claim_name: CLAIM_NAME.to_owned() },
    );
    let deployment = Deployment {
        name: name.to_owned(),
        namespace: namespace.to_owned(),
        replicas: 1,
        selector,
        pod_labels,
        containers,
        volumes,
    };
    proof {
        let expected = primary_manifest(name@, namespace@);
        assert(deployment@.selector =~= expected.selector);
        assert(deployment@.pod_labels =~= expected.pod_labels);
        assert(deployment@.containers =~= expected.containers);
        assert(deployment@.volumes =~= expected.volumes);
    }
    deployment
}

/// Asks the cluster to create the workload of the primary `name` in
/// `namespace`.
pub fn primary_deploy(name: &str, namespace: &str) -> (request: Request)
    ensures
        request@ == (RequestView::CreateDeployment {
            namespace: namespace@,
            manifest: primary_manifest(name@, namespace@),
        }),
{
    Request::CreateDeployment {
        namespace: namespace.to_owned(),
        manifest: primary_create(name, namespace),
    }
}

/// Asks the cluster to delete the workload `name` of `namespace`.
pub fn primary_undeploy(name: &str, namespace: &str) -> (request: Request)
    ensures
        request@ == (RequestView::DeleteDeployment { name: name@, namespace: namespace@ }),
{
    Request::DeleteDeployment { name: name.to_owned(), namespace: namespace.to_owned() }
}

/// The file that the workload manifest is generated into.
pub const PRIMARY_FILE: &'static str = "pgopr-primary.yaml";

/// The generated workload manifest: that of the default primary.
pub open spec fn primary_file() -> GeneratedFileView {
    GeneratedFileView {
        file_name: PRIMARY_FILE@,
        document: DocumentView::Deployment(primary_manifest(DEFAULT_NAME@, DEFAULT_NAMESPACE@)),
    }
}

/// Primary: Generate
pub fn primary_generate() -> (file: GeneratedFile)
    ensures
        file@ == primary_file(),
{
    GeneratedFile {
        file_name: PRIMARY_FILE.to_owned(),
        document: Document::Deployment(primary_create(DEFAULT_NAME, DEFAULT_NAMESPACE)),
    }
}

} // verus!

//! The storage of a primary instance: a host-backed persistent volume and the
//! claim that binds it.

use crate::gateway::{Request, RequestView};
use crate::manifest::{
    Document, DocumentView, GeneratedFile, GeneratedFileView, DEFAULT_NAMESPACE, DEFAULT_STORAGE,
};
use crate::meta::{Label, LabelView};
use crate::quantity::{gibibytes, storage_quantity};
use vstd::prelude::*;

verus! {

/// The one storage class that volumes and claims are made in.
pub const STORAGE_CLASS: &'static str = "manual";

/// Volumes and claims are shared between many writers.
pub const ACCESS_MODE: &'static str = "ReadWriteMany";

/// The directory of the host that backs a volume.
pub const HOST_PATH: &'static str = "/tmp/kind";

/// The name of the volume of a primary instance.
pub const VOLUME_NAME: &'static str = "postgresql-pv-volume";

/// The name of the claim that the workload of a primary instance mounts.
pub const CLAIM_NAME: &'static str = "postgresql-pv-claim";

/// The amount of one named resource.
#[derive(Clone, Debug, PartialEq, Eq)]
pub struct ResourceQuantity {
    pub resource: String,
    pub quantity: String,
}

pub struct ResourceQuantityView {
    pub resource: Seq<char>,
    pub quantity: Seq<char>,
}

impl View for ResourceQuantity {
    type V = ResourceQuantityView;

    open spec fn view(&self) -> ResourceQuantityView {
        ResourceQuantityView { resource: self.resource@, quantity: self.quantity@ }
    }
}

impl DeepView for ResourceQuantity {
    type V = ResourceQuantityView;

    open spec fn deep_view(&self) -> ResourceQuantityView {
        self@
    }
}

/// The manifest of a persistent volume. Volumes are not namespaced.
#[derive(Clone, Debug, PartialEq, Eq)]
pub struct PersistentVolume {
    pub name: String,
    pub labels: Vec<Label>,
    pub storage_class_name: String,
    pub capacity: Vec<ResourceQuantity>,
    pub access_modes: Vec<String>,
    pub host_path: String,
}

pub struct PersistentVolumeView {
    pub name: Seq<char>,
    pub labels: Seq<LabelView>,
    pub storage_class_name: Seq<char>,
    pub capacity: Seq<ResourceQuantityView>,
    pub access_modes: Seq<Seq<char>>,
    pub host_path: Seq<char>,
}

impl View for PersistentVolume {
    type V = PersistentVolumeView;

    open spec fn view(&self) -> PersistentVolumeView {
        PersistentVolumeView {
            name: self.name@,
            labels: self.labels.deep_view(),
            storage_class_name: self.storage_class_name@,
            capacity: self.capacity.deep_view(),
            access_modes: self.access_modes.deep_view(),
            host_path: self.host_path@,
        }
    }
}

/// The manifest of a persistent volume claim.
#[derive(Clone, Debug, PartialEq, Eq)]
pub struct PersistentVolumeClaim {
    pub name: String,
    pub namespace: String,
    pub labels: Vec<Label>,
    pub storage_class_name: String,
    pub access_modes: Vec<String>,
    pub requests: Vec<ResourceQuantity>,
}

pub struct PersistentVolumeClaimView {
    pub name: Seq<char>,
    pub namespace: Seq<char>,
    pub labels: Seq<LabelView>,
    pub storage_class_name: Seq<char>,
    pub access_modes: Seq<Seq<char>>,
    pub requests: Seq<ResourceQuantityView>,
}

impl View for PersistentVolumeClaim {
    type V = PersistentVolumeClaimView;

    open spec fn view(&self) -> PersistentVolumeClaimView {
        PersistentVolumeClaimView {
            name: self.name@,
            namespace: self.namespace@,
            labels: self.labels.deep_view(),
            storage_class_name: self.storage_class_name@,
            access_modes: self.access_modes.deep_view(),
            requests: self.requests.deep_view(),
        }
    }
}

/// `size` gibibytes of the resource `storage`.
pub open spec fn storage_of(size: nat) -> Seq<ResourceQuantityView> {
    seq![ResourceQuantityView { resource: "storage"@, quantity: gibibytes(size) }]
}

/// The volume named `name` with a capacity of `storage` gibibytes.
pub open spec fn volume_manifest(name: Seq<char>, storage: nat) -> PersistentVolumeView {
    PersistentVolumeView {
        name,
        labels: seq![
            LabelView { key: "app"@, value: "postgresql"@ },
            LabelView { key: "type"@, value: "local"@ },
        ],
        storage_class_name: STORAGE_CLASS@,
        capacity: storage_of(storage),
        access_modes: seq![ACCESS_MODE@],
        host_path: HOST_PATH@,
    }
}

/// The claim named `name` in `namespace` that asks for `storage` gibibytes.
pub open spec fn claim_manifest(
    name: Seq<char>,
    namespace: Seq<char>,
    storage: nat,
) -> PersistentVolumeClaimView {
    PersistentVolumeClaimView {
        name,
        namespace,
        labels: seq![LabelView { key: "app"@, value: "postgresql"@ }],
        storage_class_name: STORAGE_CLASS@,
        access_modes: seq![ACCESS_MODE@],
        requests: storage_of(storage),
    }
}

fn storage_entry(storage: u32) -> (entries: Vec<ResourceQuantity>)
    ensures
        entries.deep_view() == storage_of(storage as nat),
{
    let mut entries: Vec<ResourceQuantity> = Vec::new();
    entries.push(
        ResourceQuantity { resource: "storage".to_owned(), quantity: storage_quantity(storage) },
    );
    assert(entries.deep_view() =~= storage_of(storage as nat));
    entries
}

fn access_modes() -> (modes: Vec<String>)
    ensures
        modes.deep_view() == seq![ACCESS_MODE@],
{
    let mut modes: Vec<String> = Vec::new();
    modes.push(ACCESS_MODE.to_owned());
    assert(modes.deep_view() =~= seq![ACCESS_MODE@]);
    modes
}

/// Synthesizes the persistent volume.
pub fn pv_create(name: &str, storage: u32) -> (pv: PersistentVolume)
    ensures
        pv@ == volume_manifest(name@, storage as nat),
{
    let mut labels: Vec<Label> = Vec::new();
    labels.push(Label::new("app", "postgresql"));
    labels.push(Label::new("type", "local"));
    let pv = PersistentVolume {
        name: name.to_owned(),
        labels,
        storage_class_name: STORAGE_CLASS.to_owned(),
        capacity: storage_entry(storage),
        access_modes: access_modes(),
        host_path: HOST_PATH.to_owned(),
    };
    assert(pv@.labels =~= volume_manifest(name@, storage as nat).labels);
    pv
}

/// Synthesizes the persistent volume claim.
pub fn pvc_create(name: &str, namespace: &str, storage: u32) -> (pvc: PersistentVolumeClaim)
    ensures
        pvc@ == claim_manifest(name@, namespace@, storage as nat),
{
    let mut labels: Vec<Label> = Vec::new();
    labels.push(Label::new("app", "postgresql"));
    let pvc = PersistentVolumeClaim {
        name: name.to_owned(),
        namespace: namespace.to_owned(),
        labels,
        storage_class_name: STORAGE_CLASS.to_owned(),
        access_modes: access_modes(),
        requests: storage_entry(storage),
    };
    assert(pvc@.labels =~= claim_manifest(name@, namespace@, storage as nat).labels);
    pvc
}

/// Asks the cluster to create the persistent volume `name` of `storage`
/// gibibytes.
pub fn persistent_volume_deploy(name: &str, storage: u32) -> (request: Request)
    ensures
        request@ == (RequestView::CreatePersistentVolume {
            manifest: volume_manifest(name@, storage as nat),
        }),
{
    Request::CreatePersistentVolume { manifest: pv_create(name, storage) }
}

/// Asks the cluster to delete the persistent volume `name`.
pub fn persistent_volume_undeploy(name: &str) -> (request: Request)
    ensures
        request@ == (RequestView::DeletePersistentVolume { name: name@ }),
{
    Request::DeletePersistentVolume { name: name.to_owned() }
}

/// Asks the cluster to create the persistent volume claim `name` in
/// `namespace` for `storage` gibibytes.
pub fn persistent_volume_claim_deploy(name: &str, namespace: &str, storage: u32) -> (request:
    Request)
    ensures
        request@ == (RequestView::CreatePersistentVolumeClaim {
            namespace: namespace@,
            manifest: claim_manifest(name@, namespace@, storage as nat),
        }),
{
    Request::CreatePersistentVolumeClaim {
        namespace: namespace.to_owned(),
        manifest: pvc_create(name, namespace, storage),
    }
}

/// Asks the cluster to delete the persistent volume claim `name` of
/// `namespace`.
pub fn persistent_volume_claim_undeploy(name: &str, namespace: &str) -> (request: Request)
    ensures
        request@ == (RequestView::DeletePersistentVolumeClaim {
            name: name@,
            namespace: namespace@,
        }),
{
    Request::DeletePersistentVolumeClaim {
        name: name.to_owned(),
        namespace: namespace.to_owned(),
    }
}

/// The file that the volume manifest is generated into.
pub const VOLUME_FILE: &'static str = "pgopr-pv.yaml";

/// The file that the claim manifest is generated into.
pub const CLAIM_FILE: &'static str = "pgopr-pvc.yaml";

/// The generated volume manifest: that of the default primary.
pub open spec fn volume_file() -> GeneratedFileView {
    GeneratedFileView {
        file_name: VOLUME_FILE@,
        document: DocumentView::PersistentVolume(
            volume_manifest(VOLUME_NAME@, DEFAULT_STORAGE as nat),
        ),
    }
}

/// The generated claim manifest: that of the default primary.
pub open spec fn claim_file() -> GeneratedFileView {
    GeneratedFileView {
        file_name: CLAIM_FILE@,
        document: DocumentView::PersistentVolumeClaim(
            claim_manifest(CLAIM_NAME@, DEFAULT_NAMESPACE@, DEFAULT_STORAGE as nat),
        ),
    }
}

/// Persistent: Generate
pub fn persistent_generate() -> (files: (GeneratedFile, GeneratedFile))
    ensures
        files.0@ == volume_file(),
        files.1@ == claim_file(),
{
    let volume = GeneratedFile {
        file_name: VOLUME_FILE.to_owned(),
        document: Document::PersistentVolume(pv_create(VOLUME_NAME, DEFAULT_STORAGE)),
    };
    let claim = GeneratedFile {
        file_name: CLAIM_FILE.to_owned(),
        document: Document::PersistentVolumeClaim(
            pvc_create(CLAIM_NAME, DEFAULT_NAMESPACE, DEFAULT_STORAGE),
        ),
    };
    (volume, claim)
}

} // verus!

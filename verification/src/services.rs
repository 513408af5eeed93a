//! The network service that exposes a primary instance on every node.

use crate::gateway::{Request, RequestView};
use crate::manifest::{
    Document, DocumentView, GeneratedFile, GeneratedFileView, DEFAULT_NAME, DEFAULT_NAMESPACE,
};
use crate::meta::{Label, LabelView};
use crate::primary::POSTGRESQL_PORT;
use vstd::prelude::*;

verus! {

/// The kind of service: one port of every node leads to the instance.
pub const SERVICE_TYPE: &'static str = "NodePort";

/// The manifest of a service.
#[derive(Clone, Debug, PartialEq, Eq)]
pub struct Service {
    pub name: String,
    pub namespace: String,
    pub labels: Vec<Label>,
    pub type_: String,
    pub ports: Vec<i32>,
    /// The labels of the pods that the service leads to.
    pub selector: Vec<Label>,
}

pub struct ServiceView {
    pub name: Seq<char>,
    pub namespace: Seq<char>,
    pub labels: Seq<LabelView>,
    pub type_: Seq<char>,
    pub ports: Seq<i32>,
    pub selector: Seq<LabelView>,
}

impl View for Service {
    type V = ServiceView;

    open spec fn view(&self) -> ServiceView {
        ServiceView {
            name: self.name@,
            namespace: self.namespace@,
            labels: self.labels.deep_view(),
            type_: self.type_@,
            ports: self.ports@,
            selector: self.selector.deep_view(),
        }
    }
}

/// The service named `name` in `namespace`: the PostgreSQL port of the pods
/// of the workload of that name, which are labelled `app` = `name`.
pub open spec fn service_manifest(name: Seq<char>, namespace: Seq<char>) -> ServiceView {
    ServiceView {
        name,
        namespace,
        labels: seq![LabelView { key: "app"@, value: "postgresql"@ }],
        type_: SERVICE_TYPE@,
        ports: seq![POSTGRESQL_PORT],
        selector: seq![LabelView { key: "app"@, value: name }],
    }
}

/// Synthesizes the service.
pub fn service_create(name: &str, namespace: &str) -> (service: Service)
    ensures
        service@ == service_manifest(name@, namespace@),
{
    let mut labels: Vec<Label> = Vec::new();
    labels.push(Label::new("app", "postgresql"));
    let mut selector: Vec<Label> = Vec::new();
    selector.push(Label::new("app", name));
    let mut ports: Vec<i32> = Vec::new();
    ports.push(POSTGRESQL_PORT);
    let service = Service {
        name: name.to_owned(),
        namespace: namespace.to_owned(),
        labels,
        type_: SERVICE_TYPE.to_owned(),
        ports,
        selector,
    };
    proof {
        let expected = service_manifest(name@, namespace@);
        assert(service@.labels =~= expected.labels);
        assert(service@.selector =~= expected.selector);
        assert(service@.ports =~= expected.ports);
    }
    service
}

/// Asks the cluster to create the service `name` in `namespace`.
pub fn service_deploy(name: &str, namespace: &str) -> (request: Request)
    ensures
        request@ == (RequestView::CreateService {
            namespace: namespace@,
            manifest: service_manifest(name@, namespace@),
        }),
{
    Request::CreateService {
        namespace: namespace.to_owned(),
        manifest: service_create(name, namespace),
    }
}

/// Asks the cluster to delete the service `name` of `namespace`.
pub fn service_undeploy(name: &str, namespace: &str) -> (request: Request)
    ensures
        request@ == (RequestView::DeleteService { name: name@, namespace: namespace@ }),
{
    Request::DeleteService { name: name.to_owned(), namespace: namespace.to_owned() }
}

/// The file that the service manifest is generated into.
pub const SERVICE_FILE: &'static str = "pgopr-service.yaml";

/// The generated service manifest: that of the default primary.
pub open spec fn service_file() -> GeneratedFileView {
    GeneratedFileView {
        file_name: SERVICE_FILE@,
        document: DocumentView::Service(service_manifest(DEFAULT_NAME@, DEFAULT_NAMESPACE@)),
    }
}

/// Service: Generate
pub fn service_generate() -> (file: GeneratedFile)
    ensures
        file@ == service_file(),
{
    GeneratedFile {
        file_name: SERVICE_FILE.to_owned(),
        document: Document::Service(service_create(DEFAULT_NAME, DEFAULT_NAMESPACE)),
    }
}

} // verus!

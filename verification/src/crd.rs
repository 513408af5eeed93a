//! The `pgopr` custom resource.

pub mod v1;

use crate::gateway::{Request, RequestView};
use crate::manifest::{Document, DocumentView, GeneratedFile, GeneratedFileView};
use vstd::prelude::*;

verus! {

/// The API group of the custom resource.
pub const GROUP: &'static str = "pgopr.io";

/// The kind of the custom resource.
pub const KIND: &'static str = "pgopr";

/// The plural of the kind, as it stands in paths of the API.
pub const PLURAL: &'static str = "pgoprs";

/// The version of the custom resource.
pub const VERSION: &'static str = "v1";

/// The name of the custom resource definition: the plural and the group.
pub const CRD_NAME: &'static str = "pgoprs.pgopr.io";

/// How many seconds to wait for a new definition to become established.
pub const ESTABLISH_SECONDS: u64 = 10;

/// The file that the custom resource definition is generated into.
pub const CRD_FILE: &'static str = "pgopr-crd.yaml";

/// Asks the cluster to register the custom resource definition and to wait,
/// [`ESTABLISH_SECONDS`] at most, until the definition [`GROUP`] is
/// established.
pub fn crd_deploy() -> (request: Request)
    ensures
        request@ == (RequestView::CreateCrd {
            established: GROUP@,
            timeout_seconds: ESTABLISH_SECONDS,
        }),
{
    Request::CreateCrd { established: GROUP.to_owned(), timeout_seconds: ESTABLISH_SECONDS }
}

/// Asks the cluster to delete the custom resource definition.
pub fn crd_undeploy() -> (request: Request)
    ensures
        request@ == (RequestView::DeleteCrd { name: CRD_NAME@ }),
{
    Request::DeleteCrd { name: CRD_NAME.to_owned() }
}

/// The generated definition of the custom resource.
pub open spec fn crd_file() -> GeneratedFileView {
    GeneratedFileView { file_name: CRD_FILE@, document: DocumentView::Crd }
}

/// CRD: Generate
pub fn crd_generate() -> (file: GeneratedFile)
    ensures
        file@ == crd_file(),
{
    GeneratedFile { file_name: CRD_FILE.to_owned(), document: Document::Crd }
}

/// The name of the definition is made of the plural and the group.
pub proof fn lemma_crd_name()
    ensures
        CRD_NAME@ == PLURAL@ + "."@ + GROUP@,
{
    reveal_strlit("pgoprs.pgopr.io");
    reveal_strlit("pgoprs");
    reveal_strlit(".");
    reveal_strlit("pgopr.io");
    assert(CRD_NAME@ =~= PLURAL@ + "."@ + GROUP@);
}

} // verus!

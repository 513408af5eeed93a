//! Version `v1` of the `pgopr` custom resource.

use crate::meta::{ObjectMeta, ObjectMetaView};
use vstd::prelude::*;

verus! {

/// The desired state carried by a `pgopr` resource.
#[derive(Clone, Copy, Debug, PartialEq, Eq, Structural)]
pub struct PgOprSpec {
    /// The storage size; 0 means ephemeral
    pub storage: u32,
}

/// The general settings
#[derive(Clone, Copy, Debug, PartialEq, Eq, Structural)]
pub struct GeneralSpec {
    /// The storage size; 0 means ephemeral
    pub storage: u32,
}

/// One observation of a `pgopr` resource: its metadata and its desired state.
#[derive(Clone, Debug, PartialEq, Eq)]
pub struct PgOpr {
    pub metadata: ObjectMeta,
    pub spec: PgOprSpec,
}

/// The mathematical value of a [`PgOpr`].
pub struct PgOprView {
    pub metadata: ObjectMetaView,
    pub spec: PgOprSpec,
}

impl View for PgOpr {
    type V = PgOprView;

    open spec fn view(&self) -> PgOprView {
        PgOprView { metadata: self.metadata@, spec: self.spec }
    }
}

} // verus!

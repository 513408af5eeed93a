//! Verified core of the pgopr operator: classification of a resource
//! observation, the finalizer-gated reconciliation protocol and the
//! synthesis of the dependent resources of a PostgreSQL primary.

pub mod crd;
pub mod error;
pub mod finalizer;
pub mod gateway;
pub mod handlers;
pub mod manifest;
pub mod meta;
pub mod model;
pub mod persistent;
pub mod primary;
pub mod protocol;
pub mod quantity;
pub mod reconciler;
pub mod services;

pub use error::Error;

//! Ownership and cross-context sharing of reference-counted capability objects.
//!
//! The host object model (reference counting, capability queries, the
//! context-scoped lookup table and portable reference tokens) is reached
//! through the [`ComApi`] trait, and only through a [`Port`], which records
//! each call with what it was handed and what it returned. The contracts of
//! the handles state which calls each operation makes, with which arguments,
//! and how their results decide what the operation returns.

pub mod agile;
pub mod api;
pub mod errors;
pub mod git;
pub mod init;
pub mod rc;

pub use agile::{Agile, ReferenceOptions};
pub use api::{Call, ComApi, Derives, Guid, IAgileReference, IUnknown, Interface, MultiQi, Port};
pub use errors::MethodHResult;
pub use git::Git;
pub use rc::Rc;

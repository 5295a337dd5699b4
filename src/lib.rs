//! Resource tags for the handles of the Radix engine.
//!
//! A tag is a marker type naming one kind of resource. Buckets, vaults,
//! resource addresses and proofs are wrapped together with a tag, so that
//! handles of different kinds of resource cannot be mixed without a checked
//! conversion. The checked conversion compares the handle's address with the
//! tag's fixed address, or with the address that an identity registry bound
//! to the tag on its first use.
//!
//! Only the operations common to fungible and non-fungible resources are
//! wrapped: non-fungible ids and data, and proofs of part of a vault, are
//! reached through the host types that `Unwrap` gives back.
pub mod bucketof;
pub mod exts;
pub mod host;
pub mod internal;
pub mod prelude;
pub mod proofof;
pub mod resourceof;
pub mod runtime;
pub mod vaultof;
pub mod wire;

pub use crate::internal::XRD;

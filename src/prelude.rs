//! The items a user of tagged handles needs, for one glob import.
pub use crate::bucketof::BucketOf;
pub use crate::exts::{
    Deposit, DepositOf, DepositOfExplicit, Withdraw, WithdrawOf, WithdrawOfExplicit,
};
pub use crate::internal::{
    Container, Resource as StaticResource, ResourceDecl as StaticResourceDecl, ResourceIs,
    TagKey, UncheckedInto, Unwrap, XRD,
};
pub use crate::proofof::{check_reference, BucketRefOf, ProofOf};
pub use crate::resourceof::ResourceOf;
pub use crate::runtime::{check_address, Registry, TagError};
pub use crate::vaultof::VaultOf;
pub use crate::wire::WireError;
pub use scrypto::prelude::ResourceAddress;

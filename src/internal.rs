//! The tag declarations and the traits shared by every tagged handle.
use crate::host::resource_address_from_id;
use scrypto::prelude::ResourceAddress;
use vstd::prelude::*;

verus! {

/// The key under which the identity registry records a tag.
pub type TagKey = u64;

/// A tag: a marker type that names one kind of resource.
pub trait Resource {}

/// The declaration of a tag: its key, which no other tag may share, and the
/// address it is bound to from the start, if any.
///
/// `declared_key` and `declared_address` name what `key` and `fixed_address`
/// return. A declaration outside verified code need not give them: its two
/// functions are then trusted to return the same values on every call.
pub trait ResourceDecl: Resource {
    closed spec fn declared_key() -> TagKey {
        arbitrary()
    }

    closed spec fn declared_address() -> Option<ResourceAddress> {
        arbitrary()
    }

    fn key() -> (r: TagKey)
        ensures
            r == Self::declared_key(),
    ;

    fn fixed_address() -> (r: Option<ResourceAddress>)
        ensures
            r == Self::declared_address(),
    ;
}

/// A handle of the host that a tagged wrapper may hold.
pub trait Container {}

impl Container for scrypto::prelude::Bucket {}

impl Container for scrypto::prelude::Vault {}

impl Container for scrypto::prelude::Proof {}

impl Container for ResourceAddress {}

/// States at the type level that `Self` and `RES` are the same tag.
pub trait ResourceIs<RES: Resource> {}

impl<RES: Resource> ResourceIs<RES> for RES {}

/// A tagged wrapper that gives back the handle it holds.
pub trait Unwrap: Sized {
    type Value;

    /// The handle the wrapper holds, if it still holds one.
    spec fn held(&self) -> Option<Self::Value>;

    fn unwrap(self) -> (r: Self::Value)
        requires
            self.held() is Some,
        ensures
            self.held() == Some(r),
    ;
}

/// Attaches a tag to a handle without any check of its identity.
///
/// Only for handles whose identity was established by other means.
pub trait UncheckedInto<RES: Resource, W: Unwrap<Value = Self>>: Sized {
    fn unchecked_into(self) -> (w: W)
        ensures
            w.held() == Some(self),
    ;
}

/// The node id of the native XRD resource.
pub const XRD_ID: [u8; 30] = [
    93, 166, 99, 24, 198, 49, 140, 97, 245, 166, 27, 76, 99, 24, 198, 49, 140, 247, 148, 170, 141,
    41, 95, 20, 230, 49, 140, 99, 24, 198,
];

/// The tag of the native XRD resource, bound to its well-known address.
#[derive(Debug)]
pub struct XRD;

impl Resource for XRD {}

impl ResourceDecl for XRD {
    open spec fn declared_key() -> TagKey {
        0
    }

    open spec fn declared_address() -> Option<ResourceAddress> {
        crate::host::address_from_id(XRD_ID@)
    }

    fn key() -> (r: TagKey) {
        0
    }

    fn fixed_address() -> (r: Option<ResourceAddress>) {
        resource_address_from_id(XRD_ID.as_slice())
    }
}

} // verus!

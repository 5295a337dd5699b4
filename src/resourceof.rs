//! The tagged resource address, the authority handle of a resource.
use crate::bucketof::BucketOf;
use crate::host::{self, decode_address, encode_address, resource_burn, resource_mint};
use crate::internal::{Resource, UncheckedInto, Unwrap};
use crate::runtime::{self, check_address, Registry, TagError};
use crate::wire::WireError;
use core::marker::PhantomData;
use scrypto::prelude::{Decimal, ResourceAddress};
use vstd::prelude::*;

verus! {

/// The address of a resource, tagged with `RES`.
#[derive(Debug)]
pub struct ResourceOf<RES> {
    pub(crate) inner: ResourceAddress,
    pub(crate) phantom: PhantomData<RES>,
}

impl<RES: Resource> Unwrap for ResourceOf<RES> {
    type Value = ResourceAddress;

    open spec fn held(&self) -> Option<ResourceAddress> {
        Some(self.address())
    }

    fn unwrap(self) -> (r: ResourceAddress) {
        proof {
            assert(self.held() == Some(self.inner));
        }
        self.inner
    }
}

impl<RES: Resource> UncheckedInto<RES, ResourceOf<RES>> for ResourceAddress {
    fn unchecked_into(self) -> (w: ResourceOf<RES>) {
        ResourceOf { inner: self, phantom: PhantomData }
    }
}

impl<RES: Resource> ResourceOf<RES> {
    /// The address.
    pub closed spec fn address(&self) -> ResourceAddress {
        self.inner
    }

    /// Attaches the tag without a check.
    pub(crate) fn unchecked(a: ResourceAddress) -> (r: ResourceOf<RES>)
        ensures
            r.held() == Some(a),
    {
        ResourceOf { inner: a, phantom: PhantomData }
    }

    /// The address.
    pub fn resource_address(&self) -> (r: ResourceAddress)
        ensures
            self.held() == Some(r),
    {
        self.inner
    }

    /// Mints `amount` of this resource into a bucket of the same tag.
    pub fn mint(&self, amount: Decimal) -> (r: BucketOf<RES>) {
        BucketOf::unchecked(resource_mint(&self.inner, amount))
    }

    /// Burns a bucket of this resource.
    pub fn burn(&self, bucket: BucketOf<RES>) {
        resource_burn(&self.inner, bucket.inner)
    }

    /// The wire form: exactly the bytes of the address, the tag adds nothing.
    pub fn encode_value(&self) -> (r: Result<Vec<u8>, WireError>)
        ensures
            match host::address_encoding(self.address()) {
                Some(bytes) => (r matches Ok(v) && v@ == bytes),
                None => r == Err::<Vec<u8>, WireError>(WireError::Malformed),
            },
    {
        match encode_address(&self.inner) {
            Some(v) => Ok(v),
            None => Err(WireError::Malformed),
        }
    }
}

impl<RES: crate::runtime::Resource> ResourceOf<RES> {
    /// Attaches the tag to an address, which must be admitted for `RES` as
    /// `check_address` decides.
    pub fn from_untagged(reg: &mut Registry, resource_address: ResourceAddress) -> (r: Result<
        ResourceOf<RES>,
        TagError,
    >)
        requires
            old(reg).wf(),
        ensures
            final(reg).wf(),
            runtime::outcome(r) == runtime::admission(
                old(reg)@,
                RES::spec_index(),
                RES::spec_address(),
                resource_address,
            ),
            final(reg)@ == runtime::registered(
                old(reg)@,
                RES::spec_index(),
                RES::spec_address(),
                resource_address,
            ),
            r matches Ok(w) ==> w.held() == Some(resource_address),
    {
        match check_address::<RES>(reg, &resource_address) {
            Ok(()) => Ok(ResourceOf { inner: resource_address, phantom: PhantomData }),
            Err(e) => Err(e),
        }
    }

    /// Reads an address from the wire and attaches the tag, as
    /// `from_untagged` does.
    pub fn decode_value(reg: &mut Registry, bytes: &[u8]) -> (r: Result<ResourceOf<RES>, WireError>)
        requires
            old(reg).wf(),
        ensures
            final(reg).wf(),
            wire_address(r) == decode_outcome::<RES>(old(reg)@, host::decoded_address(bytes@)),
            final(reg)@ == match host::decoded_address(bytes@) {
                Some(a) => runtime::registered(
                    old(reg)@,
                    RES::spec_index(),
                    RES::spec_address(),
                    a,
                ),
                None => old(reg)@,
            },
    {
        match decode_address(bytes) {
            Some(a) => match Self::from_untagged(reg, a) {
                Ok(w) => Ok(w),
                Err(e) => Err(WireError::Refused(e)),
            },
            None => Err(WireError::Malformed),
        }
    }
}

impl<RES: Resource> PartialEq<ResourceAddress> for ResourceOf<RES> {
    /// A tagged address equals a plain address when the addresses are equal.
    fn eq(&self, other: &ResourceAddress) -> (r: bool) {
        crate::host::same_address(&self.inner, other)
    }
}

impl<RES: Resource> vstd::std_specs::cmp::PartialEqSpecImpl<ResourceAddress> for ResourceOf<RES> {
    open spec fn obeys_eq_spec() -> bool {
        true
    }

    open spec fn eq_spec(&self, other: &ResourceAddress) -> bool {
        self.address() == *other
    }
}

impl<RES: Resource> PartialEq<ResourceOf<RES>> for ResourceAddress {
    /// A plain address equals a tagged address when the addresses are equal.
    fn eq(&self, other: &ResourceOf<RES>) -> (r: bool) {
        crate::host::same_address(self, &other.inner)
    }
}

impl<RES: Resource> vstd::std_specs::cmp::PartialEqSpecImpl<ResourceOf<RES>> for ResourceAddress {
    open spec fn obeys_eq_spec() -> bool {
        true
    }

    open spec fn eq_spec(&self, other: &ResourceOf<RES>) -> bool {
        *self == other.address()
    }
}

/// The address a result holds, or its error.
pub open spec fn wire_address<RES: Resource>(r: Result<ResourceOf<RES>, WireError>) -> Result<
    ResourceAddress,
    WireError,
> {
    match r {
        Ok(w) => Ok(w.address()),
        Err(e) => Err(e),
    }
}

/// What reading an address `decoded` from the wire into the tag `RES` gives,
/// with the bindings `m`: the address, if it was read and admitted.
pub open spec fn decode_outcome<RES: crate::runtime::Resource>(
    m: Map<crate::internal::TagKey, ResourceAddress>,
    decoded: Option<ResourceAddress>,
) -> Result<ResourceAddress, WireError> {
    match decoded {
        None => Err(WireError::Malformed),
        Some(a) => match runtime::admission(m, RES::spec_index(), RES::spec_address(), a) {
            Ok(()) => Ok(a),
            Err(e) => Err(WireError::Refused(e)),
        },
    }
}

/// The wire form of a tagged address is the wire form of the address, and
/// reading it back goes through the checked conversion. So when the codec
/// reads back the address it wrote, the tag bound to that address gets the
/// same address back, and a tag bound to another address refuses it.
pub proof fn lemma_wire_round_trip<RES: crate::runtime::Resource>(
    m: Map<crate::internal::TagKey, ResourceAddress>,
    a: ResourceAddress,
    bytes: Seq<u8>,
)
    requires
        host::address_encoding(a) == Some(bytes),
        host::decoded_address(bytes) == Some(a),
    ensures
        runtime::bound_to(m, RES::spec_index(), RES::spec_address(), a) ==> decode_outcome::<RES>(
            m,
            host::decoded_address(bytes),
        ) == Ok::<ResourceAddress, WireError>(a),
        forall|b: ResourceAddress|
            #[trigger] runtime::bound_to(m, RES::spec_index(), RES::spec_address(), b) && b != a
                ==> decode_outcome::<RES>(m, host::decoded_address(bytes)) == Err::<
                ResourceAddress,
                WireError,
            >(WireError::Refused(TagError::IdentityMismatch)),
{
}

} // verus!

//! The tagged vault: a persistent container of one resource.
use crate::bucketof::BucketOf;
use crate::host::{
    self, decode_vault, encode_vault, vault_amount, vault_new, vault_put, vault_resource_address,
    vault_take, vault_take_all, vault_with_bucket,
};
use crate::internal::{Resource, UncheckedInto, Unwrap};
use crate::proofof::ProofOf;
use crate::resourceof::ResourceOf;
use crate::runtime::{self, check_address, Registry, TagError};
use crate::wire::{self, WireError};
use core::marker::PhantomData;
use scrypto::prelude::{Decimal, ResourceAddress, Vault};
use vstd::prelude::*;

verus! {

/// A vault of the host, tagged with `RES`.
#[derive(Debug)]
pub struct VaultOf<RES> {
    pub(crate) inner: Vault,
    pub(crate) phantom: PhantomData<RES>,
}

impl<RES: Resource> Unwrap for VaultOf<RES> {
    type Value = Vault;

    open spec fn held(&self) -> Option<Vault> {
        Some(self.handle())
    }

    fn unwrap(self) -> (r: Vault) {
        self.inner
    }
}

impl<RES: Resource> UncheckedInto<RES, VaultOf<RES>> for Vault {
    fn unchecked_into(self) -> (w: VaultOf<RES>) {
        VaultOf { inner: self, phantom: PhantomData }
    }
}

impl<RES: Resource> VaultOf<RES> {
    /// The vault handle.
    pub closed spec fn handle(&self) -> Vault {
        self.inner
    }

    /// A new vault holding the contents of `bucket`, with the same tag.
    pub fn with_bucket(bucket: BucketOf<RES>) -> (r: VaultOf<RES>) {
        VaultOf { inner: vault_with_bucket(bucket.inner), phantom: PhantomData }
    }

    /// Puts a bucket of the same tag into this vault.
    pub fn put(&mut self, other: BucketOf<RES>)
        ensures
            final(self).handle() == old(self).handle(),
    {
        vault_put(&mut self.inner, other.inner)
    }

    /// Takes `amount` out of this vault into a bucket of the same tag.
    pub fn take(&mut self, amount: Decimal) -> (r: BucketOf<RES>)
        ensures
            final(self).handle() == old(self).handle(),
    {
        BucketOf::unchecked(vault_take(&mut self.inner, amount))
    }

    /// Takes everything out of this vault into a bucket of the same tag.
    pub fn take_all(&mut self) -> (r: BucketOf<RES>)
        ensures
            final(self).handle() == old(self).handle(),
    {
        BucketOf::unchecked(vault_take_all(&mut self.inner))
    }

    /// The amount in this vault.
    pub fn amount(&self) -> (r: Decimal) {
        vault_amount(&self.inner)
    }

    /// The address of the resource of this vault.
    pub fn resource_address(&self) -> (r: ResourceAddress) {
        vault_resource_address(&self.inner)
    }

    /// The resource of this vault, with the same tag.
    pub fn resource_manager(&self) -> (r: ResourceOf<RES>) {
        ResourceOf::unchecked(vault_resource_address(&self.inner))
    }

    /// Calls `f` with a reference token of `amount` of this vault.
    ///
    /// In this order: `amount` is taken out into a bucket, the token is made
    /// from that bucket, `f` is called and consumes the token, and the bucket
    /// is put back before this returns.
    pub fn authorize<O, F: FnOnce(ProofOf<RES>) -> O>(&mut self, amount: Decimal, f: F) -> (r: O)
        requires
            forall|p: ProofOf<RES>| p.armed() ==> f.requires((p,)),
        ensures
            final(self).handle() == old(self).handle(),
            exists|p: ProofOf<RES>| p.armed() && f.ensures((p,), r),
    {
        let carved = self.take(amount);
        let r = carved.authorize_with_all(f);
        self.put(carved);
        r
    }

    /// The wire form: exactly the bytes of the vault handle, the tag adds
    /// nothing.
    pub fn encode_value(&self) -> (r: Result<Vec<u8>, WireError>)
        ensures
            match host::vault_encoding(self.handle()) {
                Some(bytes) => (r matches Ok(v) && v@ == bytes),
                None => r == Err::<Vec<u8>, WireError>(WireError::Malformed),
            },
    {
        match encode_vault(&self.inner) {
            Some(v) => Ok(v),
            None => Err(WireError::Malformed),
        }
    }
}

impl<RES: crate::runtime::Resource> VaultOf<RES> {
    /// A new empty vault for the resource at `resource_address`, which must
    /// be admitted for `RES` as `check_address` decides.
    pub fn new(reg: &mut Registry, resource_address: &ResourceAddress) -> (r: Result<
        VaultOf<RES>,
        TagError,
    >)
        requires
            old(reg).wf(),
        ensures
            final(reg).wf(),
            runtime::outcome(r) == runtime::admission(
                old(reg)@,
                RES::spec_index(),
                RES::spec_address(),
                *resource_address,
            ),
            final(reg)@ == runtime::registered(
                old(reg)@,
                RES::spec_index(),
                RES::spec_address(),
                *resource_address,
            ),
    {
        match check_address::<RES>(reg, resource_address) {
            Ok(()) => Ok(VaultOf { inner: vault_new(resource_address), phantom: PhantomData }),
            Err(e) => Err(e),
        }
    }

    /// Attaches the tag to a vault of the host, whose address must be
    /// admitted for `RES` as `check_address` decides.
    pub fn from_untagged(reg: &mut Registry, vault: Vault) -> (r: Result<VaultOf<RES>, TagError>)
        requires
            old(reg).wf(),
        ensures
            final(reg).wf(),
            exists|a: ResourceAddress|
                runtime::outcome(r) == runtime::admission(
                    old(reg)@,
                    RES::spec_index(),
                    RES::spec_address(),
                    a,
                ) && final(reg)@ == runtime::registered(
                    old(reg)@,
                    RES::spec_index(),
                    RES::spec_address(),
                    a,
                ),
            r matches Ok(w) ==> w.handle() == vault,
    {
        let a = vault_resource_address(&vault);
        match check_address::<RES>(reg, &a) {
            Ok(()) => Ok(VaultOf { inner: vault, phantom: PhantomData }),
            Err(e) => Err(e),
        }
    }

    /// Reads a vault from the wire and attaches the tag, as `from_untagged`
    /// does.
    pub fn decode_value(reg: &mut Registry, bytes: &[u8]) -> (r: Result<VaultOf<RES>, WireError>)
        requires
            old(reg).wf(),
        ensures
            final(reg).wf(),
            (r == Err::<VaultOf<RES>, WireError>(WireError::Malformed)) <==> host::decoded_vault(bytes@) is None,
            host::decoded_vault(bytes@) is None ==> r == Err::<VaultOf<RES>, WireError>(
                WireError::Malformed,
            ) && final(reg)@ == old(reg)@,
            host::decoded_vault(bytes@) is Some ==> exists|a: ResourceAddress|
                wire::refusal(r) == runtime::admission(
                    old(reg)@,
                    RES::spec_index(),
                    RES::spec_address(),
                    a,
                ) && final(reg)@ == runtime::registered(
                    old(reg)@,
                    RES::spec_index(),
                    RES::spec_address(),
                    a,
                ),
            r matches Ok(w) ==> host::decoded_vault(bytes@) == Some(w.handle()),
    {
        match decode_vault(bytes) {
            Some(v) => match Self::from_untagged(reg, v) {
                Ok(w) => Ok(w),
                Err(e) => Err(WireError::Refused(e)),
            },
            None => Err(WireError::Malformed),
        }
    }
}

} // verus!

//! The tagged bucket: a transferable container of one resource.
use crate::host::{
    self, bucket_amount, bucket_burn, bucket_create_proof_of_all, bucket_new, bucket_put,
    bucket_resource_address, bucket_take, decode_bucket, encode_bucket,
};
use crate::internal::{Resource, UncheckedInto, Unwrap};
use crate::proofof::ProofOf;
use crate::resourceof::ResourceOf;
use crate::runtime::{self, check_address, Registry, TagError};
use crate::wire::{self, WireError};
use core::marker::PhantomData;
use scrypto::prelude::{Bucket, Decimal, Proof, ResourceAddress};
use vstd::prelude::*;

verus! {

/// A bucket of the host, tagged with `RES`.
#[derive(Debug)]
pub struct BucketOf<RES> {
    pub(crate) inner: Bucket,
    pub(crate) phantom: PhantomData<RES>,
}

impl<RES: Resource> Unwrap for BucketOf<RES> {
    type Value = Bucket;

    open spec fn held(&self) -> Option<Bucket> {
        Some(self.handle())
    }

    fn unwrap(self) -> (r: Bucket) {
        proof {
            assert(self.held() == Some(self.inner));
        }
        self.inner
    }
}

impl<RES: Resource> UncheckedInto<RES, BucketOf<RES>> for Bucket {
    fn unchecked_into(self) -> (w: BucketOf<RES>) {
        BucketOf { inner: self, phantom: PhantomData }
    }
}

impl<RES: Resource> BucketOf<RES> {
    /// The bucket handle.
    pub closed spec fn handle(&self) -> Bucket {
        self.inner
    }

    /// Attaches the tag without a check.
    pub(crate) fn unchecked(b: Bucket) -> (r: BucketOf<RES>)
        ensures
            r.handle() == b,
            r.held() == Some(b),
    {
        BucketOf { inner: b, phantom: PhantomData }
    }

    /// Puts the resources of `other` into this bucket; both carry the same
    /// tag, so there is nothing to check.
    pub fn put(&mut self, other: BucketOf<RES>)
        ensures
            final(self).handle() == old(self).handle(),
    {
        bucket_put(&mut self.inner, other.inner)
    }

    /// Takes `amount` out of this bucket into a new bucket of the same tag.
    pub fn take(&mut self, amount: Decimal) -> (r: BucketOf<RES>)
        ensures
            final(self).handle() == old(self).handle(),
    {
        BucketOf { inner: bucket_take(&mut self.inner, amount), phantom: PhantomData }
    }

    /// Burns the resources of this bucket.
    pub fn burn(self) {
        bucket_burn(self.inner)
    }

    /// A reference token of the whole contents, with the same tag.
    pub fn create_proof(&self) -> (r: ProofOf<RES>)
        ensures
            r.armed(),
            exists|p: Proof| r.state() == crate::proofof::fresh_state(p),
    {
        ProofOf::attach(bucket_create_proof_of_all(&self.inner))
    }

    /// The resource of this bucket, with the same tag.
    pub fn resource_manager(&self) -> (r: ResourceOf<RES>) {
        ResourceOf::unchecked(bucket_resource_address(&self.inner))
    }

    /// The amount in this bucket.
    pub fn amount(&self) -> (r: Decimal) {
        bucket_amount(&self.inner)
    }

    /// The address of the resource of this bucket.
    pub fn resource_address(&self) -> (r: ResourceAddress) {
        bucket_resource_address(&self.inner)
    }

    /// Calls `f` with a reference token of the whole contents of this bucket.
    ///
    /// The token is made before the call and is consumed by it: it is
    /// released when `f` is done with it, before this returns.
    pub fn authorize_with_all<O, F: FnOnce(ProofOf<RES>) -> O>(&self, f: F) -> (r: O)
        requires
            forall|p: ProofOf<RES>| p.armed() ==> f.requires((p,)),
        ensures
            exists|p: ProofOf<RES>| p.armed() && f.ensures((p,), r),
    {
        let token = self.create_proof();
        f(token)
    }

    /// Calls `f` with a reference token of `amount` of this bucket.
    ///
    /// In this order: `amount` is taken out into a bucket, the token is made
    /// from that bucket, `f` is called and consumes the token, and the bucket
    /// is put back before this returns.
    pub fn authorize<O, F: FnOnce(ProofOf<RES>) -> O>(&mut self, amount: Decimal, f: F) -> (r: O)
        requires
            forall|p: ProofOf<RES>| p.armed() ==> f.requires((p,)),
        ensures
            final(self).handle() == old(self).handle(),
            exists|p: ProofOf<RES>| p.armed() && f.ensures((p,), r),
    {
        let carved = self.take(amount);
        let r = carved.authorize_with_all(f);
        self.put(carved);
        r
    }

    /// The wire form: exactly the bytes of the bucket handle, the tag adds
    /// nothing.
    pub fn encode_value(&self) -> (r: Result<Vec<u8>, WireError>)
        ensures
            match host::bucket_encoding(self.handle()) {
                Some(bytes) => (r matches Ok(v) && v@ == bytes),
                None => r == Err::<Vec<u8>, WireError>(WireError::Malformed),
            },
    {
        match encode_bucket(&self.inner) {
            Some(v) => Ok(v),
            None => Err(WireError::Malformed),
        }
    }
}

impl<RES: crate::runtime::Resource> BucketOf<RES> {
    /// A new empty bucket for the resource at `resource_address`, which must
    /// be admitted for `RES` as `check_address` decides.
    pub fn new(reg: &mut Registry, resource_address: &ResourceAddress) -> (r: Result<
        BucketOf<RES>,
        TagError,
    >)
        requires
            old(reg).wf(),
        ensures
            final(reg).wf(),
            runtime::outcome(r) == runtime::admission(
                old(reg)@,
                RES::spec_index(),
                RES::spec_address(),
                *resource_address,
            ),
            final(reg)@ == runtime::registered(
                old(reg)@,
                RES::spec_index(),
                RES::spec_address(),
                *resource_address,
            ),
    {
        match check_address::<RES>(reg, resource_address) {
            Ok(()) => Ok(BucketOf { inner: bucket_new(resource_address), phantom: PhantomData }),
            Err(e) => Err(e),
        }
    }

    /// Attaches the tag to a bucket of the host, whose address must be
    /// admitted for `RES` as `check_address` decides.
    pub fn from_untagged(reg: &mut Registry, bucket: Bucket) -> (r: Result<BucketOf<RES>, TagError>)
        requires
            old(reg).wf(),
        ensures
            final(reg).wf(),
            exists|a: ResourceAddress|
                runtime::outcome(r) == runtime::admission(
                    old(reg)@,
                    RES::spec_index(),
                    RES::spec_address(),
                    a,
                ) && final(reg)@ == runtime::registered(
                    old(reg)@,
                    RES::spec_index(),
                    RES::spec_address(),
                    a,
                ),
            r matches Ok(w) ==> w.handle() == bucket,
    {
        let a = bucket_resource_address(&bucket);
        match check_address::<RES>(reg, &a) {
            Ok(()) => Ok(BucketOf { inner: bucket, phantom: PhantomData }),
            Err(e) => Err(e),
        }
    }

    /// Reads a bucket from the wire and attaches the tag, as `from_untagged`
    /// does.
    pub fn decode_value(reg: &mut Registry, bytes: &[u8]) -> (r: Result<BucketOf<RES>, WireError>)
        requires
            old(reg).wf(),
        ensures
            final(reg).wf(),
            (r == Err::<BucketOf<RES>, WireError>(WireError::Malformed)) <==> host::decoded_bucket(bytes@) is None,
            host::decoded_bucket(bytes@) is None ==> r == Err::<BucketOf<RES>, WireError>(
                WireError::Malformed,
            ) && final(reg)@ == old(reg)@,
            host::decoded_bucket(bytes@) is Some ==> exists|a: ResourceAddress|
                wire::refusal(r) == runtime::admission(
                    old(reg)@,
                    RES::spec_index(),
                    RES::spec_address(),
                    a,
                ) && final(reg)@ == runtime::registered(
                    old(reg)@,
                    RES::spec_index(),
                    RES::spec_address(),
                    a,
                ),
            r matches Ok(w) ==> host::decoded_bucket(bytes@) == Some(w.handle()),
    {
        match decode_bucket(bytes) {
            Some(b) => match Self::from_untagged(reg, b) {
                Ok(w) => Ok(w),
                Err(e) => Err(WireError::Refused(e)),
            },
            None => Err(WireError::Malformed),
        }
    }
}

} // verus!

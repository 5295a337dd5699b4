//! Tagged deposits into, and withdrawals from, an account of the host.
use crate::bucketof::BucketOf;
use crate::internal::{Resource, ResourceIs, Unwrap};
use crate::resourceof::ResourceOf;
use crate::runtime::{self, Registry, TagError};
use scrypto::prelude::{Bucket, Decimal, ResourceAddress};
use vstd::prelude::*;

verus! {

/// Something that takes buckets of any resource.
pub trait Deposit {
    fn deposit(&self, bucket: Bucket);
}

/// Deposits a tagged bucket; the tag may be left to inference.
pub trait DepositOf: Deposit {
    fn deposit_of<RHS: Resource>(&self, bucket: BucketOf<RHS>) {
        self.deposit(bucket.unwrap())
    }
}

/// Deposits a bucket whose tag must be named at the call:
/// `deposit_of::<RES>(..)`.
pub trait DepositOfExplicit<RES: Resource>: Deposit {
    fn deposit_of<RHS: Resource + ResourceIs<RES>>(&self, bucket: BucketOf<RES>) {
        self.deposit(bucket.unwrap())
    }
}

/// Something that gives out buckets of a resource on request.
pub trait Withdraw {
    fn withdraw(&self, amount: Decimal, resource_address: ResourceAddress) -> Bucket;
}

/// Withdraws into a tagged bucket. The bucket comes from outside, so its
/// address is checked for the tag.
pub trait WithdrawOf: Withdraw {
    fn withdraw_of<RHS: crate::runtime::Resource>(
        &self,
        reg: &mut Registry,
        amount: Decimal,
        resource_of: ResourceOf<RHS>,
    ) -> (r: Result<BucketOf<RHS>, TagError>)
        requires
            old(reg).wf(),
        ensures
            final(reg).wf(),
            exists|a: ResourceAddress|
                runtime::outcome(r) == runtime::admission(
                    old(reg)@,
                    RHS::spec_index(),
                    RHS::spec_address(),
                    a,
                ) && final(reg)@ == runtime::registered(
                    old(reg)@,
                    RHS::spec_index(),
                    RHS::spec_address(),
                    a,
                ),
    {
        let bucket = self.withdraw(amount, resource_of.unwrap());
        BucketOf::from_untagged(reg, bucket)
    }
}

/// Withdraws into a bucket whose tag must be named at the call:
/// `withdraw_of::<RES>(..)`. The address is checked as for `WithdrawOf`.
pub trait WithdrawOfExplicit<RES: crate::runtime::Resource>: Withdraw {
    fn withdraw_of<RHS: Resource + ResourceIs<RES>>(
        &self,
        reg: &mut Registry,
        amount: Decimal,
        resource_of: ResourceOf<RES>,
    ) -> (r: Result<BucketOf<RES>, TagError>)
        requires
            old(reg).wf(),
        ensures
            final(reg).wf(),
            exists|a: ResourceAddress|
                runtime::outcome(r) == runtime::admission(
                    old(reg)@,
                    RES::spec_index(),
                    RES::spec_address(),
                    a,
                ) && final(reg)@ == runtime::registered(
                    old(reg)@,
                    RES::spec_index(),
                    RES::spec_address(),
                    a,
                ),
    {
        let bucket = self.withdraw(amount, resource_of.unwrap());
        BucketOf::from_untagged(reg, bucket)
    }
}

} // verus!

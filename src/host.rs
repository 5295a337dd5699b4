//! The interface to the host environment, as the scrypto crate gives it.
//!
//! Every item here is trusted: its contract is taken from the scrypto and
//! radix-common sources and is not proved.
use scrypto::prelude::{
    scrypto_decode, scrypto_encode, Bucket, CheckedProof, Decimal, Proof, ResourceAddress,
    ResourceManager, ScryptoBucket, ScryptoProof, ScryptoResourceManagerStub,
    ScryptoUncheckedProof, ScryptoVault, Vault,
};
use vstd::prelude::*;

verus! {

#[verifier::external_type_specification]
#[verifier::external_body]
pub struct ExResourceAddress(ResourceAddress);

/// The address whose 30-byte node id is `id`, if `id` names a resource
/// manager; `None` otherwise.
pub uninterp spec fn address_from_id(id: Seq<u8>) -> Option<ResourceAddress>;

/// Relies on the derived `PartialEq` of `ResourceAddress` (a wrapper around
/// a byte array): two addresses compare equal exactly when they are the
/// same value.
#[verifier::external_body]
pub(crate) fn same_address(a: &ResourceAddress, b: &ResourceAddress) -> (r: bool)
    ensures
        r == (*a == *b),
{
    a == b
}

/// Relies on `<ResourceAddress as TryFrom<&[u8]>>::try_from`: the result
/// depends on the bytes alone, and a slice whose length is not 30 is refused.
#[verifier::external_body]
pub(crate) fn resource_address_from_id(id: &[u8]) -> (r: Option<ResourceAddress>)
    ensures
        r == address_from_id(id@),
        id@.len() != 30 ==> r is None,
{
    ResourceAddress::try_from(id).ok()
}

#[verifier::external_type_specification]
#[verifier::external_body]
pub struct ExBucket(Bucket);

#[verifier::external_type_specification]
#[verifier::external_body]
pub struct ExVault(Vault);

#[verifier::external_type_specification]
#[verifier::external_body]
pub struct ExProof(Proof);

#[verifier::external_type_specification]
#[verifier::external_body]
pub struct ExDecimal(Decimal);

/// Relies on `Decimal::is_positive`: whether the amount is above zero.
#[verifier::external_body]
pub(crate) fn decimal_is_positive(d: &Decimal) -> (r: bool) {
    d.is_positive()
}

/// Relies on `ScryptoBucket::new` for `Bucket`: an empty bucket for the
/// resource at `a`.
///
/// The engine aborts the transaction when no resource manager exists at `a`.
/// Which inputs it refuses depends on ledger state that no argument shows, so
/// no `requires` can leave them out; the abort ends the caller's unit of work.
#[verifier::external_body]
pub(crate) fn bucket_new(a: &ResourceAddress) -> (r: Bucket) {
    <Bucket as ScryptoBucket>::new(*a)
}

/// Relies on `ScryptoBucket::put` for `Bucket`: the engine moves the
/// contents; the handle itself, a node id, is left as it was.
///
/// The engine aborts the transaction when `other` holds another resource than
/// `b`. Which inputs it refuses depends on ledger state that no argument shows,
/// so no `requires` can leave them out; the abort ends the caller's unit of
/// work.
#[verifier::external_body]
pub(crate) fn bucket_put(b: &mut Bucket, other: Bucket)
    ensures
        *final(b) == *old(b),
{
    b.put(other)
}

/// Relies on `ScryptoBucket::take` for `Bucket`: the engine splits off
/// `amount` into a new bucket; the handle itself is left as it was.
///
/// The engine aborts the transaction when `amount` is above the balance or not
/// a valid amount of the resource. Which inputs it refuses depends on ledger
/// state that no argument shows, so no `requires` can leave them out; the abort
/// ends the caller's unit of work.
#[verifier::external_body]
pub(crate) fn bucket_take(b: &mut Bucket, amount: Decimal) -> (r: Bucket)
    ensures
        *final(b) == *old(b),
{
    b.take(amount)
}

/// Relies on `ScryptoBucket::amount` for `Bucket`: the amount the engine
/// reports.
#[verifier::external_body]
pub(crate) fn bucket_amount(b: &Bucket) -> (r: Decimal) {
    b.amount()
}

/// Relies on `ScryptoBucket::resource_address` for `Bucket`: the address the
/// engine reports.
#[verifier::external_body]
pub(crate) fn bucket_resource_address(b: &Bucket) -> (r: ResourceAddress) {
    b.resource_address()
}

/// Relies on `ScryptoBucket::burn` for `Bucket`.
///
/// The engine aborts the transaction when the caller lacks the burner role.
/// Which inputs it refuses depends on ledger state that no argument shows, so
/// no `requires` can leave them out; the abort ends the caller's unit of work.
#[verifier::external_body]
pub(crate) fn bucket_burn(b: Bucket) {
    b.burn()
}

/// Relies on `ScryptoBucket::create_proof_of_all` for `Bucket`: a proof of
/// the whole contents.
#[verifier::external_body]
pub(crate) fn bucket_create_proof_of_all(b: &Bucket) -> (r: Proof) {
    b.create_proof_of_all()
}

/// Relies on `ScryptoVault::new` for `Vault`: an empty vault for the
/// resource at `a`.
///
/// The engine aborts the transaction when no resource manager exists at `a`.
/// Which inputs it refuses depends on ledger state that no argument shows, so
/// no `requires` can leave them out; the abort ends the caller's unit of work.
#[verifier::external_body]
pub(crate) fn vault_new(a: &ResourceAddress) -> (r: Vault) {
    <Vault as ScryptoVault>::new(*a)
}

/// Relies on `ScryptoVault::with_bucket` for `Vault`: a new vault holding the
/// contents of `b`.
#[verifier::external_body]
pub(crate) fn vault_with_bucket(b: Bucket) -> (r: Vault) {
    <Vault as ScryptoVault>::with_bucket(b)
}

/// Relies on `ScryptoVault::put` for `Vault`: the handle itself is left as
/// it was.
///
/// The engine aborts the transaction when `b` holds another resource than `v`.
/// Which inputs it refuses depends on ledger state that no argument shows, so
/// no `requires` can leave them out; the abort ends the caller's unit of work.
#[verifier::external_body]
pub(crate) fn vault_put(v: &mut Vault, b: Bucket)
    ensures
        *final(v) == *old(v),
{
    v.put(b)
}

/// Relies on `ScryptoVault::take` for `Vault`: the handle itself is left as
/// it was.
///
/// The engine aborts the transaction when `amount` is above the balance or not
/// a valid amount of the resource. Which inputs it refuses depends on ledger
/// state that no argument shows, so no `requires` can leave them out; the abort
/// ends the caller's unit of work.
#[verifier::external_body]
pub(crate) fn vault_take(v: &mut Vault, amount: Decimal) -> (r: Bucket)
    ensures
        *final(v) == *old(v),
{
    v.take(amount)
}

/// Relies on `ScryptoVault::take_all` for `Vault`: the handle itself is left
/// as it was.
#[verifier::external_body]
pub(crate) fn vault_take_all(v: &mut Vault) -> (r: Bucket)
    ensures
        *final(v) == *old(v),
{
    v.take_all()
}

/// Relies on `ScryptoVault::amount` for `Vault`: the amount the engine
/// reports.
#[verifier::external_body]
pub(crate) fn vault_amount(v: &Vault) -> (r: Decimal) {
    v.amount()
}

/// Relies on `ScryptoVault::resource_address` for `Vault`: the address the
/// engine reports.
#[verifier::external_body]
pub(crate) fn vault_resource_address(v: &Vault) -> (r: ResourceAddress) {
    v.resource_address()
}

/// Relies on `ScryptoUncheckedProof::resource_address` for `Proof`: the
/// address the engine reports.
#[verifier::external_body]
pub(crate) fn proof_resource_address(p: &Proof) -> (r: ResourceAddress) {
    p.resource_address()
}

/// Relies on `ScryptoProof::amount` for `CheckedProof`, which wraps the same
/// node id: the amount the engine reports.
#[verifier::external_body]
pub(crate) fn proof_amount(p: &Proof) -> (r: Decimal) {
    CheckedProof(Proof(p.0)).amount()
}

/// Relies on `ScryptoProof::contains_amount` for `CheckedProof`, which
/// wraps the same node id: whether the engine reports at least `amount`.
#[verifier::external_body]
pub(crate) fn proof_contains_amount(p: &Proof, amount: Decimal) -> (r: bool) {
    CheckedProof(Proof(p.0)).contains_amount(amount)
}

/// The receipt for a proof handed back to the host. Only `proof_drop` makes
/// one, so holding a receipt shows that the call was made.
#[derive(Debug)]
pub struct Released {
    handed: Proof,
}

impl Released {
    /// The proof that was handed back.
    pub closed spec fn handed(&self) -> Proof {
        self.handed
    }
}

/// Relies on `ScryptoUncheckedProof::drop` for `Proof`: hands the proof back
/// to the engine, and gives a receipt that names it (the receipt keeps the
/// proof's node id, which the engine no longer knows). Inside the engine a
/// failed call aborts the transaction instead of unwinding, which is what lets
/// `Drop` of a token make this call.
#[verifier::external_body]
pub(crate) fn proof_drop(p: Proof) -> (r: Released)
    ensures
        r.handed() == p,
    opens_invariants none
    no_unwind
{
    let receipt = Released { handed: Proof(p.0) };
    ScryptoUncheckedProof::drop(p);
    receipt
}

/// Relies on `ResourceManager::mint` through its stub: new resource from the
/// manager at `a`.
///
/// The engine aborts the transaction when the caller lacks the minter role or
/// the resource is not fungible. Which inputs it refuses depends on ledger
/// state that no argument shows, so no `requires` can leave them out; the abort
/// ends the caller's unit of work.
#[verifier::external_body]
#[allow(deprecated)]
pub(crate) fn resource_mint(a: &ResourceAddress, amount: Decimal) -> (r: Bucket) {
    ResourceManager::from(*a).mint(amount)
}

/// Relies on `ResourceManager::burn` through its stub.
///
/// The engine aborts the transaction when the caller lacks the burner role or
/// `b` holds another resource. Which inputs it refuses depends on ledger state
/// that no argument shows, so no `requires` can leave them out; the abort ends
/// the caller's unit of work.
#[verifier::external_body]
pub(crate) fn resource_burn(a: &ResourceAddress, b: Bucket) {
    ResourceManager::from(*a).burn(b)
}

/// The bytes that `scrypto_encode` gives for an address, if it succeeds.
pub uninterp spec fn address_encoding(a: ResourceAddress) -> Option<Seq<u8>>;

/// The address that `scrypto_decode` reads from `bytes`, if it succeeds.
pub uninterp spec fn decoded_address(bytes: Seq<u8>) -> Option<ResourceAddress>;

/// The bytes that `scrypto_encode` gives for a bucket, if it succeeds.
pub uninterp spec fn bucket_encoding(b: Bucket) -> Option<Seq<u8>>;

/// The bucket that `scrypto_decode` reads from `bytes`, if it succeeds.
pub uninterp spec fn decoded_bucket(bytes: Seq<u8>) -> Option<Bucket>;

/// The bytes that `scrypto_encode` gives for a vault, if it succeeds.
pub uninterp spec fn vault_encoding(v: Vault) -> Option<Seq<u8>>;

/// The vault that `scrypto_decode` reads from `bytes`, if it succeeds.
pub uninterp spec fn decoded_vault(bytes: Seq<u8>) -> Option<Vault>;

/// The bytes that `scrypto_encode` gives for a proof, if it succeeds.
pub uninterp spec fn proof_encoding(p: Proof) -> Option<Seq<u8>>;

/// The proof that `scrypto_decode` reads from `bytes`, if it succeeds.
pub uninterp spec fn decoded_proof(bytes: Seq<u8>) -> Option<Proof>;

/// Relies on `scrypto_encode` for `ResourceAddress`: the bytes depend on the
/// address alone.
#[verifier::external_body]
pub(crate) fn encode_address(a: &ResourceAddress) -> (r: Option<Vec<u8>>)
    ensures
        r matches Some(v) ==> address_encoding(*a) == Some(v@),
        r is None ==> address_encoding(*a) is None,
{
    scrypto_encode(a).ok()
}

/// Relies on `scrypto_decode` for `ResourceAddress`: the result depends on
/// the bytes alone.
#[verifier::external_body]
pub(crate) fn decode_address(bytes: &[u8]) -> (r: Option<ResourceAddress>)
    ensures
        r == decoded_address(bytes@),
{
    scrypto_decode(bytes).ok()
}

/// Relies on `scrypto_encode` for `Bucket`: the bytes depend on the handle
/// alone.
#[verifier::external_body]
pub(crate) fn encode_bucket(b: &Bucket) -> (r: Option<Vec<u8>>)
    ensures
        r matches Some(v) ==> bucket_encoding(*b) == Some(v@),
        r is None ==> bucket_encoding(*b) is None,
{
    scrypto_encode(b).ok()
}

/// Relies on `scrypto_decode` for `Bucket`: the result depends on the bytes
/// alone.
#[verifier::external_body]
pub(crate) fn decode_bucket(bytes: &[u8]) -> (r: Option<Bucket>)
    ensures
        r == decoded_bucket(bytes@),
{
    scrypto_decode(bytes).ok()
}

/// Relies on `scrypto_encode` for `Vault`: the bytes depend on the handle
/// alone.
#[verifier::external_body]
pub(crate) fn encode_vault(v: &Vault) -> (r: Option<Vec<u8>>)
    ensures
        r matches Some(e) ==> vault_encoding(*v) == Some(e@),
        r is None ==> vault_encoding(*v) is None,
{
    scrypto_encode(v).ok()
}

/// Relies on `scrypto_decode` for `Vault`: the result depends on the bytes
/// alone.
#[verifier::external_body]
pub(crate) fn decode_vault(bytes: &[u8]) -> (r: Option<Vault>)
    ensures
        r == decoded_vault(bytes@),
{
    scrypto_decode(bytes).ok()
}

/// The receipt for a proof sent to the encoder. Only `encode_proof` makes
/// one; the proof itself is consumed by the encoding.
#[derive(Debug)]
pub struct Sent {
    handed: Proof,
}

impl Sent {
    /// The proof that was encoded.
    pub closed spec fn handed(&self) -> Proof {
        self.handed
    }
}

/// Relies on `scrypto_encode` for `Proof`: the bytes depend on the handle
/// alone. The proof is taken: encoded, it is given up with a receipt that
/// names it; when the codec fails, it is given back.
#[verifier::external_body]
pub(crate) fn encode_proof(p: Proof) -> (r: Result<(Vec<u8>, Sent), Proof>)
    ensures
        match r {
            Ok((v, receipt)) => proof_encoding(p) == Some(v@) && receipt.handed() == p,
            Err(q) => proof_encoding(p) is None && q == p,
        },
{
    match scrypto_encode(&p) {
        Ok(v) => Ok((v, Sent { handed: Proof(p.0) })),
        Err(_) => Err(p),
    }
}

/// Relies on `scrypto_decode` for `Proof`: the result depends on the bytes
/// alone.
#[verifier::external_body]
pub(crate) fn decode_proof(bytes: &[u8]) -> (r: Option<Proof>)
    ensures
        r == decoded_proof(bytes@),
{
    scrypto_decode(bytes).ok()
}

} // verus!

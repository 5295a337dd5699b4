//! The single-use reference token: a tagged proof that is released exactly
//! once.
use crate::host::{
    self, Released, Sent, decimal_is_positive, decode_proof, encode_proof, proof_amount, proof_contains_amount,
    proof_drop, proof_resource_address, same_address,
};
use crate::internal::{Resource, UncheckedInto, Unwrap};
use crate::resourceof::ResourceOf;
use crate::runtime::{self, check_address, Registry, TagError};
use crate::wire::WireError;
use core::marker::PhantomData;
use scrypto::prelude::{Decimal, Proof, ResourceAddress};
use vstd::prelude::*;

verus! {

/// Whether a reference token may be made for the tag with key `key` and
/// fixed address `fixed`, from a proof that holds a positive amount when
/// `nonempty`, with address `a`.
///
/// An empty proof is refused whatever its address.
pub open spec fn reference_admission(
    m: Map<crate::internal::TagKey, ResourceAddress>,
    key: crate::internal::TagKey,
    fixed: Option<ResourceAddress>,
    nonempty: bool,
    a: ResourceAddress,
) -> Result<(), TagError> {
    if !nonempty {
        Err(TagError::EmptyReference)
    } else {
        runtime::admission(m, key, fixed, a)
    }
}

/// The bindings after that check.
pub open spec fn reference_registered(
    m: Map<crate::internal::TagKey, ResourceAddress>,
    key: crate::internal::TagKey,
    fixed: Option<ResourceAddress>,
    nonempty: bool,
    a: ResourceAddress,
) -> Map<crate::internal::TagKey, ResourceAddress> {
    if !nonempty {
        m
    } else {
        runtime::registered(m, key, fixed, a)
    }
}

/// What an operation on a token whose slot is `slot` reports: it goes
/// ahead while the token is armed, and fails with `UseAfterRelease` once the
/// token is released.
pub open spec fn use_outcome(slot: Option<Proof>) -> Result<(), TagError> {
    if slot is Some {
        Ok(())
    } else {
        Err(TagError::UseAfterRelease)
    }
}

/// What a token holds and what it has given up: the proof still held, the
/// proof it handed back to the host, and the proof it sent to the encoder.
pub struct TokenState {
    pub slot: Option<Proof>,
    pub returned: Option<Proof>,
    pub sent: Option<Proof>,
}

/// A token just made from the proof `p`.
pub open spec fn fresh_state(p: Proof) -> TokenState {
    TokenState { slot: Some(p), returned: None, sent: None }
}

/// The state after releasing: an armed token hands its proof back to the
/// host; a released one stays as it is.
pub open spec fn released_state(s: TokenState) -> TokenState {
    match s.slot {
        Some(p) => TokenState { slot: None, returned: Some(p), sent: s.sent },
        None => s,
    }
}

/// The state after encoding: an armed token sends its proof to the encoder,
/// and hands nothing back to the host; a released one stays as it is.
pub open spec fn encoded_state(s: TokenState) -> TokenState {
    match s.slot {
        Some(p) => TokenState { slot: None, returned: s.returned, sent: Some(p) },
        None => s,
    }
}

/// How many times the token's proof was given up: handed back or sent.
pub open spec fn uses(s: TokenState) -> nat {
    (if s.returned is Some {
        1nat
    } else {
        0nat
    }) + (if s.sent is Some {
        1nat
    } else {
        0nat
    })
}

/// The state after the consuming operations `steps`, in order: `true` for a
/// release (explicit, or the drop at scope end), `false` for an encoding.
pub open spec fn consume_all(s: TokenState, steps: Seq<bool>) -> TokenState
    decreases steps.len(),
{
    if steps.len() == 0 {
        s
    } else {
        let t = consume_all(s, steps.drop_last());
        if steps.last() {
            released_state(t)
        } else {
            encoded_state(t)
        }
    }
}

/// A token is used exactly once: after any non-empty run of consuming
/// operations on a token made from `p`, the token holds nothing, and `p` was
/// either handed back to the host or sent to the encoder, not both; every
/// operation on it then fails with `UseAfterRelease`.
pub proof fn lemma_single_use(p: Proof, steps: Seq<bool>)
    ensures
        steps.len() == 0 ==> uses(consume_all(fresh_state(p), steps)) == 0,
        steps.len() > 0 ==> consume_all(fresh_state(p), steps).slot is None,
        steps.len() > 0 ==> uses(consume_all(fresh_state(p), steps)) == 1,
        steps.len() > 0 ==> (consume_all(fresh_state(p), steps).returned == Some(p) <==> steps[0]),
        steps.len() > 0 ==> (consume_all(fresh_state(p), steps).sent == Some(p) <==> !steps[0]),
        steps.len() > 0 ==> use_outcome(consume_all(fresh_state(p), steps).slot) == Err::<
            (),
            TagError,
        >(TagError::UseAfterRelease),
    decreases steps.len(),
{
    if steps.len() == 1 {
        assert(steps.drop_last().len() == 0);
        assert(consume_all(fresh_state(p), steps.drop_last()) == fresh_state(p));
        assert(steps.last() == steps[0]);
    } else if steps.len() > 1 {
        lemma_single_use(p, steps.drop_last());
        assert(steps.drop_last()[0] == steps[0]);
    }
}

/// A proof that holds no positive amount never becomes a reference token,
/// whatever its address, and leaves the bindings as they were.
pub proof fn lemma_no_empty_reference(
    m: Map<crate::internal::TagKey, ResourceAddress>,
    key: crate::internal::TagKey,
    fixed: Option<ResourceAddress>,
    a: ResourceAddress,
)
    ensures
        reference_admission(m, key, fixed, false, a) == Err::<(), TagError>(
            TagError::EmptyReference,
        ),
        reference_registered(m, key, fixed, false, a) == m,
{
}

/// `a` is the address of `resource`.
pub open spec fn is_address_of<R: Resource>(a: ResourceAddress, resource: &ResourceOf<R>) -> bool {
    a == resource.address()
}

/// A proof with address `a`, of which the host reports the amount asked for
/// when `has_amount`, holds the resource `resource`.
pub open spec fn holds_resource_of<R: Resource>(
    a: ResourceAddress,
    resource: &ResourceOf<R>,
    has_amount: bool,
) -> bool {
    a == resource.address() && has_amount
}

/// Whether the address `a`, which the host reports for a proof, is the
/// address of `resource`.
pub fn address_matches<R: Resource>(a: &ResourceAddress, resource: &ResourceOf<R>) -> (r: bool)
    ensures
        r == (*a == resource.address()),
{
    same_address(a, &resource.resource_address())
}

/// Whether a proof with address `a` holds the resource `resource`, given
/// whether the host reports that it holds the amount asked for.
pub fn holds_resource<R: Resource>(
    a: &ResourceAddress,
    resource: &ResourceOf<R>,
    has_amount: bool,
) -> (r: bool)
    ensures
        r == (*a == resource.address() && has_amount),
{
    address_matches(a, resource) && has_amount
}

/// Whether a proof is empty, given whether the host reports a positive
/// amount for it.
pub fn empty_unless_positive(positive: bool) -> (r: bool)
    ensures
        r == !positive,
{
    !positive
}

/// Checks that a proof whose amount is positive when `nonempty`, with
/// address `address`, may become a reference token of the tag `RES`.
pub fn check_reference<RES: crate::runtime::Resource>(
    reg: &mut Registry,
    nonempty: bool,
    address: &ResourceAddress,
) -> (r: Result<(), TagError>)
    requires
        old(reg).wf(),
    ensures
        final(reg).wf(),
        r == reference_admission(
            old(reg)@,
            RES::spec_index(),
            RES::spec_address(),
            nonempty,
            *address,
        ),
        final(reg)@ == reference_registered(
            old(reg)@,
            RES::spec_index(),
            RES::spec_address(),
            nonempty,
            *address,
        ),
{
    if !nonempty {
        return Err(TagError::EmptyReference);
    }
    check_address::<RES>(reg, address)
}

/// A proof of the host, tagged with `RES`, that is either armed (it holds
/// the proof) or released.
///
/// The proof is used once: releasing the token, or dropping it while armed,
/// hands the proof back to the host; encoding it sends the proof to the
/// encoder instead. Only the first of these acts, and every operation after
/// it fails with `TagError::UseAfterRelease`. The token keeps the receipt of
/// what it gave up, which `state` reads.
pub struct ProofOf<RES: Resource> {
    inner: Option<Proof>,
    returned: Option<Released>,
    sent: Option<Sent>,
    phantom: PhantomData<RES>,
}

/// `ProofOf` under the name of a reference to a bucket.
pub type BucketRefOf<RES> = ProofOf<RES>;

impl<RES: Resource> Unwrap for ProofOf<RES> {
    type Value = Proof;

    open spec fn held(&self) -> Option<Proof> {
        self.slot()
    }

    /// Takes the proof out; the token is then released without handing the
    /// proof back to the host.
    fn unwrap(self) -> (r: Proof) {
        let mut token = self;
        token.inner.take().unwrap()
    }
}

impl<RES: Resource> UncheckedInto<RES, ProofOf<RES>> for Proof {
    fn unchecked_into(self) -> (w: ProofOf<RES>) {
        ProofOf::attach(self)
    }
}

impl<RES: Resource> ProofOf<RES> {
    /// The proof the token holds, `None` once released.
    pub closed spec fn slot(&self) -> Option<Proof> {
        self.inner
    }

    /// What the token holds and what it has given up.
    pub closed spec fn state(&self) -> TokenState {
        TokenState {
            slot: self.inner,
            returned: match self.returned {
                Some(receipt) => Some(receipt.handed()),
                None => None,
            },
            sent: match self.sent {
                Some(receipt) => Some(receipt.handed()),
                None => None,
            },
        }
    }

    /// The token still holds its proof.
    pub open spec fn armed(&self) -> bool {
        self.held() is Some
    }

    /// An armed token holding `p`.
    pub(crate) fn attach(p: Proof) -> (r: ProofOf<RES>)
        ensures
            r.state() == fresh_state(p),
            r.slot() == Some(p),
    {
        ProofOf { inner: Some(p), returned: None, sent: None, phantom: PhantomData }
    }

    /// Hands the proof back to the host and releases the token; the receipt
    /// names the proof handed back.
    pub fn drop(self) -> (r: Result<Released, TagError>)
        ensures
            runtime::outcome(r) == use_outcome(self.slot()),
            self.slot() matches Some(p) ==> (r matches Ok(receipt) && receipt.handed() == p),
    {
        let mut token = self;
        match token.inner.take() {
            Some(p) => Ok(proof_drop(p)),
            None => Err(TagError::UseAfterRelease),
        }
    }

    /// The amount of the proof.
    pub fn amount(&self) -> (r: Result<Decimal, TagError>)
        ensures
            runtime::outcome(r) == use_outcome(self.slot()),
    {
        match &self.inner {
            Some(p) => Ok(proof_amount(p)),
            None => Err(TagError::UseAfterRelease),
        }
    }

    /// The address of the resource of the proof.
    pub fn resource_address(&self) -> (r: Result<ResourceAddress, TagError>)
        ensures
            runtime::outcome(r) == use_outcome(self.slot()),
    {
        match &self.inner {
            Some(p) => Ok(proof_resource_address(p)),
            None => Err(TagError::UseAfterRelease),
        }
    }

    /// Whether the proof is of the resource `resource`: the answer of
    /// `address_matches` for the address the host reports for the proof.
    pub fn contains<R: Resource>(&self, resource: &ResourceOf<R>) -> (r: Result<bool, TagError>)
        ensures
            runtime::outcome(r) == use_outcome(self.slot()),
            self.armed() ==> exists|a: ResourceAddress|
                r == Ok::<bool, TagError>(#[trigger] is_address_of(a, resource)),
    {
        match &self.inner {
            Some(p) => {
                let a = proof_resource_address(p);
                let found = address_matches(&a, resource);
                assert(found == is_address_of(a, resource));
                Ok(found)
            },
            None => Err(TagError::UseAfterRelease),
        }
    }

    /// Whether the proof is of the resource `resource` and holds at least
    /// `amount` of it.
    ///
    /// The answer of `holds_resource` for the address the host reports for
    /// the proof, and whether the host reports at least `amount`.
    pub fn contains_resource<R: Resource>(&self, amount: Decimal, resource: &ResourceOf<R>) -> (r:
        Result<bool, TagError>)
        ensures
            runtime::outcome(r) == use_outcome(self.slot()),
            self.armed() ==> exists|a: ResourceAddress, has_amount: bool|
                r == Ok::<bool, TagError>(#[trigger] holds_resource_of(a, resource, has_amount)),
    {
        match &self.inner {
            Some(p) => {
                let a = proof_resource_address(p);
                let has_amount = proof_contains_amount(p, amount);
                let found = holds_resource(&a, resource, has_amount);
                assert(found == holds_resource_of(a, resource, has_amount));
                Ok(found)
            },
            None => Err(TagError::UseAfterRelease),
        }
    }

    /// Whether the proof holds no positive amount: the answer of
    /// `empty_unless_positive` for the positivity the host reports.
    pub fn is_empty(&self) -> (r: Result<bool, TagError>)
        ensures
            runtime::outcome(r) == use_outcome(self.slot()),
    {
        match &self.inner {
            Some(p) => {
                let positive = decimal_is_positive(&proof_amount(p));
                Ok(empty_unless_positive(positive))
            },
            None => Err(TagError::UseAfterRelease),
        }
    }

    /// The resource of the proof, with the same tag; the same as
    /// `resource_manager`.
    pub fn resource_def(&self) -> (r: Result<ResourceOf<RES>, TagError>)
        ensures
            runtime::outcome(r) == use_outcome(self.slot()),
    {
        self.resource_manager()
    }

    /// The resource of the proof, with the same tag.
    pub fn resource_manager(&self) -> (r: Result<ResourceOf<RES>, TagError>)
        ensures
            runtime::outcome(r) == use_outcome(self.slot()),
    {
        match &self.inner {
            Some(p) => Ok(ResourceOf::unchecked(proof_resource_address(p))),
            None => Err(TagError::UseAfterRelease),
        }
    }

    /// Encodes the proof for the wire and releases the token: sending the
    /// proof is its one use, and nothing is handed back to the host. When the
    /// codec cannot encode the proof, the token is left as it was.
    pub fn encode_value(&mut self) -> (r: Result<Vec<u8>, WireError>)
        ensures
            r is Ok ==> final(self).state() == encoded_state(old(self).state()),
            r is Err ==> final(self).state() == old(self).state(),
            !old(self).armed() ==> r == Err::<Vec<u8>, WireError>(
                WireError::Refused(TagError::UseAfterRelease),
            ),
            old(self).armed() ==> match host::proof_encoding(old(self).held()->Some_0) {
                Some(bytes) => (r matches Ok(v) && v@ == bytes),
                None => r == Err::<Vec<u8>, WireError>(WireError::Malformed),
            },
    {
        match self.inner.take() {
            Some(p) => match encode_proof(p) {
                Ok((v, receipt)) => {
                    self.sent = Some(receipt);
                    Ok(v)
                },
                Err(q) => {
                    self.inner = Some(q);
                    Err(WireError::Malformed)
                },
            },
            None => Err(WireError::Refused(TagError::UseAfterRelease)),
        }
    }
}

impl<RES: crate::runtime::Resource> ProofOf<RES> {
    /// Makes a reference token from a proof of the host.
    ///
    /// The proof must hold a positive amount, and its address must be
    /// admitted for `RES` as `check_address` decides. A refused proof is
    /// handed back to the host.
    pub fn from_untagged(reg: &mut Registry, proof: Proof) -> (r: Result<ProofOf<RES>, TagError>)
        requires
            old(reg).wf(),
        ensures
            final(reg).wf(),
            exists|nonempty: bool, a: ResourceAddress|
                runtime::outcome(r) == reference_admission(
                    old(reg)@,
                    RES::spec_index(),
                    RES::spec_address(),
                    nonempty,
                    a,
                ) && final(reg)@ == reference_registered(
                    old(reg)@,
                    RES::spec_index(),
                    RES::spec_address(),
                    nonempty,
                    a,
                ),
            r matches Ok(t) ==> t.state() == fresh_state(proof),
    {
        let nonempty = decimal_is_positive(&proof_amount(&proof));
        let a = proof_resource_address(&proof);
        match check_reference::<RES>(reg, nonempty, &a) {
            Ok(()) => Ok(ProofOf::attach(proof)),
            Err(e) => {
                let _receipt = proof_drop(proof);
                Err(e)
            },
        }
    }

    /// Reads a proof from the wire and makes a reference token of it, as
    /// `from_untagged` does.
    pub fn decode_value(reg: &mut Registry, bytes: &[u8]) -> (r: Result<ProofOf<RES>, WireError>)
        requires
            old(reg).wf(),
        ensures
            final(reg).wf(),
            (r == Err::<ProofOf<RES>, WireError>(WireError::Malformed)) <==> host::decoded_proof(bytes@) is None,
            host::decoded_proof(bytes@) is None ==> r == Err::<ProofOf<RES>, WireError>(
                WireError::Malformed,
            ) && final(reg)@ == old(reg)@,
            host::decoded_proof(bytes@) is Some ==> exists|nonempty: bool, a: ResourceAddress|
                crate::wire::refusal(r) == reference_admission(
                    old(reg)@,
                    RES::spec_index(),
                    RES::spec_address(),
                    nonempty,
                    a,
                ) && final(reg)@ == reference_registered(
                    old(reg)@,
                    RES::spec_index(),
                    RES::spec_address(),
                    nonempty,
                    a,
                ),
            r matches Ok(t) ==> t.held() == host::decoded_proof(bytes@),
    {
        match decode_proof(bytes) {
            Some(p) => match Self::from_untagged(reg, p) {
                Ok(t) => Ok(t),
                Err(e) => Err(WireError::Refused(e)),
            },
            None => Err(WireError::Malformed),
        }
    }
}

impl<RES: Resource> Drop for ProofOf<RES> {
    /// Hands a proof that was neither released nor encoded back to the host.
    fn drop(&mut self)
        ensures
            final(self).state() == released_state(old(self).state()),
        opens_invariants none
        no_unwind
    {
        let mut held: Option<Proof> = None;
        core::mem::swap(&mut held, &mut self.inner);
        match held {
            Some(p) => {
                self.returned = Some(proof_drop(p));
            },
            None => {},
        }
    }
}

} // verus!

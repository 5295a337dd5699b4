//! The identity registry and the checked conversion.
use crate::host::same_address;
use crate::internal::{ResourceDecl, TagKey};
use scrypto::prelude::ResourceAddress;
use vstd::prelude::*;

verus! {

/// Why a handle was refused.
#[derive(Clone, Copy, Debug, PartialEq, Eq, Structural)]
pub enum TagError {
    /// The handle's address is not the one bound to the tag.
    IdentityMismatch,
    /// The tag is unbound, and the handle's address is bound to another tag.
    DuplicateBinding,
    /// A reference token was made from a handle that holds no resource.
    EmptyReference,
    /// A reference token was used after it was released.
    UseAfterRelease,
}

/// What the checked conversion needs of a tag.
pub trait Resource: crate::internal::Resource {
    /// The key the registry records the tag under.
    spec fn spec_index() -> TagKey;

    /// The address the tag is fixed to, `None` for an unbound tag.
    spec fn spec_address() -> Option<ResourceAddress>;

    fn index() -> (r: TagKey)
        ensures
            r == Self::spec_index(),
    ;

    fn address() -> (r: Option<ResourceAddress>)
        ensures
            r == Self::spec_address(),
    ;
}

impl<T: ResourceDecl> Resource for T {
    open spec fn spec_index() -> TagKey {
        T::declared_key()
    }

    open spec fn spec_address() -> Option<ResourceAddress> {
        T::declared_address()
    }

    fn index() -> (r: TagKey) {
        T::key()
    }

    fn address() -> (r: Option<ResourceAddress>) {
        T::fixed_address()
    }
}

/// The success or the error of a result, without its value.
pub open spec fn outcome<T>(r: Result<T, TagError>) -> Result<(), TagError> {
    match r {
        Ok(_) => Ok(()),
        Err(e) => Err(e),
    }
}

/// Some tag of `m` is bound to `a`.
pub open spec fn address_in_use(m: Map<TagKey, ResourceAddress>, a: ResourceAddress) -> bool {
    exists|k: TagKey| #[trigger] m.contains_key(k) && m[k] == a
}

/// No two tags of `m` are bound to the same address.
pub open spec fn injective(m: Map<TagKey, ResourceAddress>) -> bool {
    forall|k1: TagKey, k2: TagKey|
        #[trigger] m.contains_key(k1) && #[trigger] m.contains_key(k2) && m[k1] == m[k2] ==> k1
            == k2
}

/// Whether a handle with address `a` may carry the tag with key `key` and
/// fixed address `fixed`, given the bindings `m`.
pub open spec fn admission(
    m: Map<TagKey, ResourceAddress>,
    key: TagKey,
    fixed: Option<ResourceAddress>,
    a: ResourceAddress,
) -> Result<(), TagError> {
    match fixed {
        Some(b) => if a == b {
            Ok(())
        } else {
            Err(TagError::IdentityMismatch)
        },
        None => if m.contains_key(key) {
            if m[key] == a {
                Ok(())
            } else {
                Err(TagError::IdentityMismatch)
            }
        } else if address_in_use(m, a) {
            Err(TagError::DuplicateBinding)
        } else {
            Ok(())
        },
    }
}

/// The bindings after that check: an unbound tag is bound to `a` when the
/// check admits it.
pub open spec fn registered(
    m: Map<TagKey, ResourceAddress>,
    key: TagKey,
    fixed: Option<ResourceAddress>,
    a: ResourceAddress,
) -> Map<TagKey, ResourceAddress> {
    if fixed is None && !m.contains_key(key) && !address_in_use(m, a) {
        m.insert(key, a)
    } else {
        m
    }
}

/// `b` lists each key of `m` once with its address, and no address twice.
spec fn bindings_agree(
    b: Seq<(TagKey, ResourceAddress)>,
    m: Map<TagKey, ResourceAddress>,
) -> bool {
    &&& forall|i: int| 0 <= i < b.len() ==> #[trigger] m.contains_key(b[i].0) && m[b[i].0] == b[i].1
    &&& forall|k: TagKey| #[trigger]
        m.contains_key(k) ==> exists|i: int| 0 <= i < b.len() && b[i].0 == k
    &&& forall|i: int, j: int|
        0 <= i < b.len() && 0 <= j < b.len() && i != j ==> #[trigger] b[i].0 != #[trigger] b[j].0
            && b[i].1 != b[j].1
}

proof fn lemma_bindings_push(
    b0: Seq<(TagKey, ResourceAddress)>,
    m0: Map<TagKey, ResourceAddress>,
    key: TagKey,
    a: ResourceAddress,
)
    requires
        bindings_agree(b0, m0),
        !m0.contains_key(key),
        !address_in_use(m0, a),
    ensures
        bindings_agree(b0.push((key, a)), m0.insert(key, a)),
{
    let b = b0.push((key, a));
    let m = m0.insert(key, a);
    let n = b0.len();
    assert forall|i: int| 0 <= i < b.len() implies #[trigger] m.contains_key(b[i].0) && m[b[i].0]
        == b[i].1 by {
        if i < n {
            assert(b[i] == b0[i]);
            assert(m0.contains_key(b0[i].0));
        } else {
            assert(b[i] == (key, a));
        }
    }
    assert forall|k: TagKey| #[trigger] m.contains_key(k) implies exists|i: int|
        0 <= i < b.len() && b[i].0 == k by {
        if k == key {
            assert(b[n as int].0 == k);
        } else {
            assert(m0.contains_key(k));
            let i = choose|i: int| 0 <= i < b0.len() && b0[i].0 == k;
            assert(b[i] == b0[i]);
        }
    }
    assert forall|i: int, j: int|
        0 <= i < b.len() && 0 <= j < b.len() && i != j implies #[trigger] b[i].0 != #[trigger] b[j].0
            && b[i].1 != b[j].1 by {
        if i < n && j < n {
            assert(b[i] == b0[i]);
            assert(b[j] == b0[j]);
        } else if i == n {
            assert(b[j] == b0[j]);
            assert(m0.contains_key(b0[j].0));
            assert(m0[b0[j].0] == b0[j].1);
        } else {
            assert(b[i] == b0[i]);
            assert(m0.contains_key(b0[i].0));
            assert(m0[b0[i].0] == b0[i].1);
        }
    }
}

/// The tag with key `key` and fixed address `fixed` is bound to `a`: fixed
/// to it, or unbound and bound to it in `m`.
pub open spec fn bound_to(
    m: Map<TagKey, ResourceAddress>,
    key: TagKey,
    fixed: Option<ResourceAddress>,
    a: ResourceAddress,
) -> bool {
    fixed == Some(a) || (fixed is None && m.contains_key(key) && m[key] == a)
}

/// The bindings after the checks `attempts`, made in order from `m`; each
/// attempt is a tag's key and fixed address, and a handle's address.
pub open spec fn run(
    m: Map<TagKey, ResourceAddress>,
    attempts: Seq<(TagKey, Option<ResourceAddress>, ResourceAddress)>,
) -> Map<TagKey, ResourceAddress>
    decreases attempts.len(),
{
    if attempts.len() == 0 {
        m
    } else {
        let (k, f, a) = attempts.last();
        registered(run(m, attempts.drop_last()), k, f, a)
    }
}

/// A tag with a fixed address admits a handle exactly when the handle's
/// address is that address, and the check leaves the bindings as they were.
pub proof fn lemma_fixed_binding(
    m: Map<TagKey, ResourceAddress>,
    key: TagKey,
    fixed: ResourceAddress,
    a: ResourceAddress,
)
    ensures
        admission(m, key, Some(fixed), a) is Ok <==> a == fixed,
        admission(m, key, Some(fixed), a) is Err ==> admission(m, key, Some(fixed), a) == Err::<
            (),
            TagError,
        >(TagError::IdentityMismatch),
        registered(m, key, Some(fixed), a) == m,
{
}

/// A check never changes a binding that exists, and keeps the bindings
/// injective.
pub proof fn lemma_registered_keeps(
    m: Map<TagKey, ResourceAddress>,
    key: TagKey,
    fixed: Option<ResourceAddress>,
    a: ResourceAddress,
)
    requires
        injective(m),
    ensures
        forall|k: TagKey| #[trigger]
            m.contains_key(k) ==> registered(m, key, fixed, a).contains_key(k) && registered(
                m,
                key,
                fixed,
                a,
            )[k] == m[k],
        injective(registered(m, key, fixed, a)),
{
    let m2 = registered(m, key, fixed, a);
    if fixed is None && !m.contains_key(key) && !address_in_use(m, a) {
        assert forall|k1: TagKey, k2: TagKey|
            #[trigger] m2.contains_key(k1) && #[trigger] m2.contains_key(k2) && m2[k1] == m2[k2]
                implies k1 == k2 by {
            if k1 == key && k2 != key {
                assert(m.contains_key(k2) && m[k2] == a);
            } else if k2 == key && k1 != key {
                assert(m.contains_key(k1) && m[k1] == a);
            }
        }
    }
}

/// Any run of checks keeps the bindings that exist, and keeps the bindings
/// injective.
pub proof fn lemma_run_keeps(
    m: Map<TagKey, ResourceAddress>,
    attempts: Seq<(TagKey, Option<ResourceAddress>, ResourceAddress)>,
)
    requires
        injective(m),
    ensures
        forall|k: TagKey| #[trigger]
            m.contains_key(k) ==> run(m, attempts).contains_key(k) && run(m, attempts)[k] == m[k],
        injective(run(m, attempts)),
    decreases attempts.len(),
{
    if attempts.len() > 0 {
        let (k, f, a) = attempts.last();
        lemma_run_keeps(m, attempts.drop_last());
        lemma_registered_keeps(run(m, attempts.drop_last()), k, f, a);
    }
}

/// Once a check of an unbound tag admits an address (its first check binds
/// the tag to it; a later one finds it bound to it), the tag is bound to that
/// address for good: after any later checks the tag admits that address
/// alone, and every other unbound tag refuses it.
pub proof fn lemma_first_writer_wins(
    m: Map<TagKey, ResourceAddress>,
    key: TagKey,
    a: ResourceAddress,
    later: Seq<(TagKey, Option<ResourceAddress>, ResourceAddress)>,
)
    requires
        injective(m),
        admission(m, key, None, a) is Ok,
    ensures
        run(registered(m, key, None, a), later).contains_key(key),
        run(registered(m, key, None, a), later)[key] == a,
        forall|b: ResourceAddress|
            #[trigger] admission(run(registered(m, key, None, a), later), key, None, b) is Ok
                <==> b == a,
        forall|k: TagKey|
            k != key ==> #[trigger] admission(run(registered(m, key, None, a), later), k, None, a)
                is Err,
{
    let m1 = registered(m, key, None, a);
    lemma_registered_keeps(m, key, None, a);
    assert(m1.contains_key(key) && m1[key] == a);
    lemma_run_keeps(m1, later);
    let mn = run(m1, later);
    assert forall|k: TagKey| k != key implies #[trigger] admission(mn, k, None, a) is Err by {
        if mn.contains_key(k) && mn[k] == a {
            assert(mn.contains_key(key) && mn[key] == a);
        }
        assert(address_in_use(mn, a)) by {
            assert(mn.contains_key(key));
        }
    }
}

/// A handle whose address is bound to one tag is refused by a different
/// tag bound to a different address.
pub proof fn lemma_no_cross_tag(
    m: Map<TagKey, ResourceAddress>,
    key1: TagKey,
    fixed1: Option<ResourceAddress>,
    a1: ResourceAddress,
    key2: TagKey,
    fixed2: Option<ResourceAddress>,
    a2: ResourceAddress,
)
    requires
        key1 != key2,
        bound_to(m, key1, fixed1, a1),
        bound_to(m, key2, fixed2, a2),
        a1 != a2,
    ensures
        admission(m, key1, fixed1, a2) == Err::<(), TagError>(TagError::IdentityMismatch),
{
}

/// The bindings of unbound tags to the addresses they were first seen with.
///
/// One registry serves every checked conversion of a process; tests make a
/// fresh one each.
pub struct Registry {
    bindings: Vec<(TagKey, ResourceAddress)>,
    model: Ghost<Map<TagKey, ResourceAddress>>,
}

impl View for Registry {
    type V = Map<TagKey, ResourceAddress>;

    closed spec fn view(&self) -> Map<TagKey, ResourceAddress> {
        self.model@
    }
}

impl Registry {
    /// The bindings list each key once and each address once, and agree
    /// with the model.
    pub closed spec fn wf(&self) -> bool {
        bindings_agree(self.bindings@, self.model@)
    }

    /// A registry with no binding.
    pub fn new() -> (r: Registry)
        ensures
            r.wf(),
            r@ == Map::<TagKey, ResourceAddress>::empty(),
    {
        Registry { bindings: Vec::new(), model: Ghost(Map::empty()) }
    }

    /// No two tags of a registry are bound to the same address.
    pub proof fn lemma_injective(&self)
        requires
            self.wf(),
        ensures
            injective(self@),
    {
        let b = self.bindings@;
        let m = self.model@;
        assert(bindings_agree(b, m));
        assert forall|k1: TagKey, k2: TagKey|
            m.contains_key(k1) && m.contains_key(k2) && m[k1] == m[k2] implies k1 == k2 by {
            let i = choose|i: int| 0 <= i < b.len() && b[i].0 == k1;
            let j = choose|j: int| 0 <= j < b.len() && b[j].0 == k2;
            assert(m[b[i].0] == b[i].1);
            assert(m[b[j].0] == b[j].1);
            if i != j {
                assert(b[i].1 != b[j].1);
            }
        }
    }

    /// The address bound to `key`, if any.
    pub fn lookup(&self, key: TagKey) -> (r: Option<ResourceAddress>)
        requires
            self.wf(),
        ensures
            r == (if self@.contains_key(key) {
                Some(self@[key])
            } else {
                None::<ResourceAddress>
            }),
    {
        let n = self.bindings.len();
        let mut i: usize = 0;
        while i < n
            invariant
                self.wf(),
                n == self.bindings@.len(),
                0 <= i <= n,
                forall|j: int| 0 <= j < i ==> #[trigger] self.bindings@[j].0 != key,
            decreases n - i,
        {
            if self.bindings[i].0 == key {
                return Some(self.bindings[i].1);
            }
            i += 1;
        }
        assert(!self@.contains_key(key)) by {
            if self@.contains_key(key) {
                let j = choose|j: int| 0 <= j < self.bindings@.len() && self.bindings@[j].0 == key;
                assert(self.bindings@[j].0 != key);
            }
        }
        None
    }

    /// Whether some tag is bound to `a`.
    pub fn in_use(&self, a: &ResourceAddress) -> (r: bool)
        requires
            self.wf(),
        ensures
            r == address_in_use(self@, *a),
    {
        let n = self.bindings.len();
        let mut i: usize = 0;
        while i < n
            invariant
                self.wf(),
                n == self.bindings@.len(),
                0 <= i <= n,
                forall|j: int| 0 <= j < i ==> #[trigger] self.bindings@[j].1 != *a,
            decreases n - i,
        {
            if same_address(&self.bindings[i].1, a) {
                assert(self@.contains_key(self.bindings@[i as int].0));
                return true;
            }
            i += 1;
        }
        assert(!address_in_use(self@, *a)) by {
            if address_in_use(self@, *a) {
                let k = choose|k: TagKey| #[trigger] self@.contains_key(k) && self@[k] == *a;
                let j = choose|j: int| 0 <= j < self.bindings@.len() && self.bindings@[j].0 == k;
                assert(self.bindings@[j].1 == *a);
            }
        }
        false
    }

    /// Checks `a` against the binding of the unbound tag `key`, and binds the
    /// tag to `a` on its first use, unless another tag holds `a`.
    pub fn bind(&mut self, key: TagKey, a: &ResourceAddress) -> (r: Result<(), TagError>)
        requires
            old(self).wf(),
        ensures
            final(self).wf(),
            r == admission(old(self)@, key, None, *a),
            final(self)@ == registered(old(self)@, key, None, *a),
    {
        match self.lookup(key) {
            Some(expected) => {
                if same_address(&expected, a) {
                    Ok(())
                } else {
                    Err(TagError::IdentityMismatch)
                }
            },
            None => {
                if self.in_use(a) {
                    Err(TagError::DuplicateBinding)
                } else {
                    let ghost m0 = self.model@;
                    let ghost b0 = self.bindings@;
                    self.bindings.push((key, *a));
                    self.model = Ghost(m0.insert(key, *a));
                    proof {
                        lemma_bindings_push(b0, m0, key, *a);
                    }
                    Ok(())
                }
            },
        }
    }
}

/// Checks that a handle with address `address` may carry the tag `RES`.
///
/// A tag with a fixed address admits that address alone. An unbound tag
/// admits the address the registry bound it to; on its first use it is bound
/// to `address`, unless another tag holds that address.
pub fn check_address<RES: Resource>(reg: &mut Registry, address: &ResourceAddress) -> (r: Result<
    (),
    TagError,
>)
    requires
        old(reg).wf(),
    ensures
        final(reg).wf(),
        r == admission(old(reg)@, RES::spec_index(), RES::spec_address(), *address),
        final(reg)@ == registered(old(reg)@, RES::spec_index(), RES::spec_address(), *address),
{
    match RES::address() {
        Some(expected) => {
            if same_address(&expected, address) {
                Ok(())
            } else {
                Err(TagError::IdentityMismatch)
            }
        },
        None => reg.bind(RES::index(), address),
    }
}

} // verus!

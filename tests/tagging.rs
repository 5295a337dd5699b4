use scrypto::prelude::{scrypto_encode, Bucket, NodeId, Own, Proof, ResourceAddress, Vault};
use scrypto_statictypes::proofof::{address_matches, empty_unless_positive, holds_resource};
use scrypto_statictypes::prelude::{
    check_address, check_reference, BucketOf, ProofOf, Registry, ResourceOf, StaticResource,
    StaticResourceDecl, TagError, UncheckedInto, Unwrap, VaultOf, WireError, XRD,
};

#[derive(Debug)]
struct FLAM;
impl StaticResource for FLAM {}
impl StaticResourceDecl for FLAM {
    fn key() -> u64 {
        1
    }
    fn fixed_address() -> Option<ResourceAddress> {
        None
    }
}

#[derive(Debug)]
struct OTHER;
impl StaticResource for OTHER {}
impl StaticResourceDecl for OTHER {
    fn key() -> u64 {
        2
    }
    fn fixed_address() -> Option<ResourceAddress> {
        None
    }
}

#[derive(Debug)]
struct THIRD;
impl StaticResource for THIRD {}
impl StaticResourceDecl for THIRD {
    fn key() -> u64 {
        3
    }
    fn fixed_address() -> Option<ResourceAddress> {
        None
    }
}

fn address(tail: u8) -> ResourceAddress {
    let mut id = [7u8; 30];
    id[0] = 93;
    id[29] = tail;
    ResourceAddress::try_from(&id[..]).unwrap()
}

fn node(tail: u8) -> NodeId {
    let mut id = [3u8; 30];
    id[29] = tail;
    NodeId(id)
}

#[test]
fn flam_scenario() {
    let mut reg = Registry::new();
    let a = address(1);
    let b = address(2);
    assert_eq!(check_address::<FLAM>(&mut reg, &a), Ok(()));
    assert_eq!(reg.lookup(1), Some(a));
    assert_eq!(check_address::<FLAM>(&mut reg, &b), Err(TagError::IdentityMismatch));
    assert_eq!(check_address::<OTHER>(&mut reg, &a), Err(TagError::DuplicateBinding));
    assert_eq!(reg.lookup(2), None);
}

#[test]
fn fixed_tag_admits_its_address_only() {
    let mut reg = Registry::new();
    let xrd = scrypto::prelude::XRD;
    assert_eq!(check_address::<XRD>(&mut reg, &xrd), Ok(()));
    assert_eq!(check_address::<XRD>(&mut reg, &address(1)), Err(TagError::IdentityMismatch));
    assert_eq!(reg.lookup(0), None);
    assert!(!reg.in_use(&xrd));
}

#[test]
fn xrd_declares_the_native_address() {
    assert_eq!(<XRD as StaticResourceDecl>::fixed_address(), Some(scrypto::prelude::XRD));
    assert_eq!(<XRD as StaticResourceDecl>::key(), 0);
}

#[test]
fn first_binding_stays() {
    let mut reg = Registry::new();
    let a = address(1);
    let b = address(2);
    assert_eq!(check_address::<FLAM>(&mut reg, &a), Ok(()));
    assert_eq!(check_address::<OTHER>(&mut reg, &b), Ok(()));
    assert_eq!(check_address::<FLAM>(&mut reg, &b), Err(TagError::IdentityMismatch));
    assert_eq!(check_address::<THIRD>(&mut reg, &a), Err(TagError::DuplicateBinding));
    assert_eq!(check_address::<THIRD>(&mut reg, &b), Err(TagError::DuplicateBinding));
    assert_eq!(check_address::<FLAM>(&mut reg, &a), Ok(()));
    assert_eq!(reg.lookup(1), Some(a));
    assert_eq!(reg.lookup(2), Some(b));
    assert!(reg.in_use(&a));
    assert!(!reg.in_use(&address(3)));
}

#[test]
fn no_cross_tag_mixing() {
    let mut reg = Registry::new();
    let a1 = address(1);
    let a2 = address(2);
    assert_eq!(check_address::<FLAM>(&mut reg, &a1), Ok(()));
    assert_eq!(check_address::<OTHER>(&mut reg, &a2), Ok(()));
    assert_eq!(check_address::<FLAM>(&mut reg, &a2), Err(TagError::IdentityMismatch));
    assert_eq!(check_address::<XRD>(&mut reg, &a2), Err(TagError::IdentityMismatch));
    assert_eq!(
        check_address::<FLAM>(&mut reg, &scrypto::prelude::XRD),
        Err(TagError::IdentityMismatch)
    );
}

#[test]
fn empty_reference_is_refused() {
    let mut reg = Registry::new();
    let a = address(1);
    assert_eq!(check_reference::<FLAM>(&mut reg, false, &a), Err(TagError::EmptyReference));
    assert_eq!(reg.lookup(1), None);
    assert_eq!(
        check_reference::<XRD>(&mut reg, false, &scrypto::prelude::XRD),
        Err(TagError::EmptyReference)
    );
    assert_eq!(check_reference::<XRD>(&mut reg, false, &a), Err(TagError::EmptyReference));
}

#[test]
fn nonempty_reference_is_checked() {
    let mut reg = Registry::new();
    let a = address(1);
    assert_eq!(check_reference::<FLAM>(&mut reg, true, &a), Ok(()));
    assert_eq!(reg.lookup(1), Some(a));
    assert_eq!(
        check_reference::<FLAM>(&mut reg, true, &address(2)),
        Err(TagError::IdentityMismatch)
    );
    assert_eq!(check_reference::<OTHER>(&mut reg, true, &a), Err(TagError::DuplicateBinding));
}

#[test]
fn token_is_used_once() {
    let mut token: ProofOf<FLAM> = Proof(Own(node(1))).unchecked_into();
    let expected = scrypto_encode(&Proof(Own(node(1)))).unwrap();
    assert_eq!(token.encode_value(), Ok(expected));
    assert_eq!(
        token.encode_value(),
        Err(WireError::Refused(TagError::UseAfterRelease))
    );
    assert!(matches!(token.amount(), Err(TagError::UseAfterRelease)));
    assert!(matches!(token.resource_address(), Err(TagError::UseAfterRelease)));
    assert!(matches!(token.is_empty(), Err(TagError::UseAfterRelease)));
    assert!(matches!(token.resource_manager(), Err(TagError::UseAfterRelease)));
    let r: ResourceOf<FLAM> = address(1).unchecked_into();
    assert!(matches!(token.contains(&r), Err(TagError::UseAfterRelease)));
    assert!(matches!(
        token.contains_resource(scrypto::prelude::Decimal::from(1), &r),
        Err(TagError::UseAfterRelease)
    ));
    assert!(matches!(token.drop(), Err(TagError::UseAfterRelease)));
}

#[test]
fn token_unwrap_gives_the_proof() {
    let token: ProofOf<FLAM> = Proof(Own(node(4))).unchecked_into();
    assert_eq!(token.unwrap(), Proof(Own(node(4))));
}

#[test]
fn address_round_trip() {
    let mut reg = Registry::new();
    let a = address(1);
    let tagged = ResourceOf::<FLAM>::from_untagged(&mut reg, a).unwrap();
    let bytes = tagged.encode_value().unwrap();
    assert_eq!(bytes, scrypto_encode(&a).unwrap());
    let back = ResourceOf::<FLAM>::decode_value(&mut reg, &bytes).unwrap();
    assert_eq!(back.resource_address(), a);
    assert_eq!(back.unwrap(), a);
}

#[test]
fn address_decode_into_other_tag_fails() {
    let mut reg = Registry::new();
    let a = address(1);
    let b = address(2);
    assert_eq!(check_address::<FLAM>(&mut reg, &a), Ok(()));
    assert_eq!(check_address::<OTHER>(&mut reg, &b), Ok(()));
    let bytes = scrypto_encode(&a).unwrap();
    assert!(matches!(
        ResourceOf::<OTHER>::decode_value(&mut reg, &bytes),
        Err(WireError::Refused(TagError::IdentityMismatch))
    ));
    assert!(matches!(
        ResourceOf::<XRD>::decode_value(&mut reg, &bytes),
        Err(WireError::Refused(TagError::IdentityMismatch))
    ));
    assert!(matches!(
        ResourceOf::<THIRD>::decode_value(&mut reg, &bytes),
        Err(WireError::Refused(TagError::DuplicateBinding))
    ));
}

#[test]
fn address_decode_of_garbage_is_malformed() {
    let mut reg = Registry::new();
    assert!(matches!(
        ResourceOf::<FLAM>::decode_value(&mut reg, &[1, 2, 3]),
        Err(WireError::Malformed)
    ));
    assert_eq!(reg.lookup(1), None);
}

#[test]
fn address_from_untagged_binds() {
    let mut reg = Registry::new();
    let a = address(9);
    let tagged = ResourceOf::<OTHER>::from_untagged(&mut reg, a).unwrap();
    assert_eq!(tagged.resource_address(), a);
    assert!(matches!(
        ResourceOf::<OTHER>::from_untagged(&mut reg, address(8)),
        Err(TagError::IdentityMismatch)
    ));
    assert!(matches!(
        ResourceOf::<XRD>::from_untagged(&mut reg, scrypto::prelude::XRD),
        Ok(_)
    ));
}

#[test]
fn bucket_wire_form_is_the_handle() {
    let tagged: BucketOf<FLAM> = Bucket(Own(node(2))).unchecked_into();
    let bytes = tagged.encode_value().unwrap();
    assert_eq!(bytes, scrypto_encode(&Bucket(Own(node(2)))).unwrap());
    assert_ne!(bytes, scrypto_encode(&Bucket(Own(node(5)))).unwrap());
    assert_eq!(tagged.unwrap(), Bucket(Own(node(2))));
}

#[test]
fn vault_wire_form_is_the_handle() {
    let tagged: VaultOf<FLAM> = Vault(Own(node(3))).unchecked_into();
    let bytes = tagged.encode_value().unwrap();
    assert_eq!(bytes, scrypto_encode(&Vault(Own(node(3)))).unwrap());
    assert_eq!(tagged.unwrap(), Vault(Own(node(3))));
}

#[test]
fn fresh_registries_are_independent() {
    let mut first = Registry::new();
    let mut second = Registry::new();
    assert_eq!(check_address::<FLAM>(&mut first, &address(1)), Ok(()));
    assert_eq!(check_address::<FLAM>(&mut second, &address(2)), Ok(()));
    assert_eq!(first.lookup(1), Some(address(1)));
    assert_eq!(second.lookup(1), Some(address(2)));
}

#[test]
fn handle_decode_of_garbage_is_malformed() {
    let mut reg = Registry::new();
    assert!(matches!(
        BucketOf::<FLAM>::decode_value(&mut reg, &[9, 9]),
        Err(WireError::Malformed)
    ));
    assert!(matches!(
        VaultOf::<FLAM>::decode_value(&mut reg, &[]),
        Err(WireError::Malformed)
    ));
    assert!(matches!(
        ProofOf::<FLAM>::decode_value(&mut reg, &[0]),
        Err(WireError::Malformed)
    ));
    let address_bytes = scrypto_encode(&address(1)).unwrap();
    assert!(matches!(
        BucketOf::<FLAM>::decode_value(&mut reg, &address_bytes),
        Err(WireError::Malformed)
    ));
    assert_eq!(reg.lookup(1), None);
}

#[test]
fn tagged_address_compares_with_plain_address() {
    let tagged: ResourceOf<FLAM> = address(1).unchecked_into();
    assert!(tagged == address(1));
    assert!(tagged != address(2));
    assert!(address(1) == tagged);
    assert!(address(2) != tagged);
}

#[test]
fn proof_address_is_compared_with_the_resource() {
    let resource: ResourceOf<FLAM> = address(1).unchecked_into();
    assert!(address_matches(&address(1), &resource));
    assert!(!address_matches(&address(2), &resource));
    assert!(holds_resource(&address(1), &resource, true));
    assert!(!holds_resource(&address(1), &resource, false));
    assert!(!holds_resource(&address(2), &resource, true));
}

#[test]
fn emptiness_is_the_negation_of_positivity() {
    assert!(empty_unless_positive(false));
    assert!(!empty_unless_positive(true));
}

#[test]
fn released_token_has_no_resource_def() {
    let mut token: ProofOf<OTHER> = Proof(Own(node(6))).unchecked_into();
    assert!(token.encode_value().is_ok());
    assert!(matches!(token.resource_def(), Err(TagError::UseAfterRelease)));
}

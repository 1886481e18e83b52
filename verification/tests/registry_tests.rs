use fedimint_http::error::ErrorKind;
use fedimint_http::ids::FederationIdentity;
use fedimint_http::ids::IdentityPrefix;
use fedimint_http::registry::ClientRegistry;
use fedimint_http::registry::ClientSelector;
use fedimint_http::registry::MultiClientPolicy;
use fedimint_http::registry::ResolveError;

fn identity(tag: u8) -> FederationIdentity {
    let mut bytes = vec![tag; 32];
    bytes[1] = tag.wrapping_add(1);
    FederationIdentity::from_bytes(bytes)
}

#[test]
fn resolve_explicit_is_stable_across_calls_and_registrations() {
    let mut registry = ClientRegistry::new(MultiClientPolicy::RequireSole);
    registry.insert(identity(1)).unwrap();
    let first = registry.resolve_explicit(&identity(1)).unwrap().slot;
    let again = registry.resolve_explicit(&identity(1)).unwrap().slot;
    assert_eq!(first, again);
    // registering further federations does not rebind the answer
    registry.insert(identity(2)).unwrap();
    registry.insert(identity(3)).unwrap();
    let later = registry.resolve_explicit(&identity(1)).unwrap();
    assert_eq!(later.slot, first);
    assert_eq!(later.federation.bytes, identity(1).bytes);
}

#[test]
fn resolve_explicit_unknown_is_not_found() {
    let mut registry = ClientRegistry::new(MultiClientPolicy::RequireSole);
    registry.insert(identity(1)).unwrap();
    assert_eq!(registry.resolve_explicit(&identity(9)).unwrap_err(), ResolveError::NotFound);
}

#[test]
fn resolve_prefix_sole_match_and_not_found() {
    let mut registry = ClientRegistry::new(MultiClientPolicy::RequireSole);
    registry.insert(identity(1)).unwrap();
    registry.insert(identity(2)).unwrap();
    let p1 = IdentityPrefix::from_bytes(vec![1, 2, 1, 1]);
    let handle = registry.resolve_prefix(&p1).unwrap();
    assert_eq!(handle.federation.bytes, identity(1).bytes);
    let missing = IdentityPrefix::from_bytes(vec![7, 7, 7, 7]);
    assert_eq!(registry.resolve_prefix(&missing).unwrap_err(), ResolveError::NotFound);
}

#[test]
fn resolve_prefix_ambiguity_is_an_explicit_error() {
    let mut registry = ClientRegistry::new(MultiClientPolicy::RequireSole);
    // two identities sharing their first byte
    let mut a = vec![5u8; 32];
    a[31] = 1;
    let mut b = vec![5u8; 32];
    b[31] = 2;
    registry.insert(FederationIdentity::from_bytes(a)).unwrap();
    registry.insert(FederationIdentity::from_bytes(b)).unwrap();
    let shared = IdentityPrefix::from_bytes(vec![5]);
    assert_eq!(registry.resolve_prefix(&shared).unwrap_err(), ResolveError::Ambiguous);
}

#[test]
fn resolve_default_policies() {
    let mut sole = ClientRegistry::new(MultiClientPolicy::RequireSole);
    assert_eq!(sole.resolve_default().unwrap_err(), ResolveError::NotFound);
    sole.insert(identity(1)).unwrap();
    assert_eq!(sole.resolve_default().unwrap().slot, 0);
    sole.insert(identity(2)).unwrap();
    assert_eq!(sole.resolve_default().unwrap_err(), ResolveError::Ambiguous);

    let mut first = ClientRegistry::new(MultiClientPolicy::UseFirst);
    first.insert(identity(1)).unwrap();
    first.insert(identity(2)).unwrap();
    let handle = first.resolve_default().unwrap();
    assert_eq!(handle.slot, 0);
    assert_eq!(handle.federation.bytes, identity(1).bytes);
}

#[test]
fn resolve_selector_covers_all_three_forms() {
    let mut registry = ClientRegistry::new(MultiClientPolicy::UseFirst);
    registry.insert(identity(4)).unwrap();
    assert!(registry.resolve(&ClientSelector::Explicit(identity(4))).is_ok());
    assert!(registry.resolve(&ClientSelector::Prefix(IdentityPrefix::from_bytes(vec![4, 5]))).is_ok());
    assert!(registry.resolve(&ClientSelector::DefaultClient).is_ok());
}

#[test]
fn insert_rejects_duplicate_identity() {
    let mut registry = ClientRegistry::new(MultiClientPolicy::RequireSole);
    registry.insert(identity(1)).unwrap();
    assert!(registry.insert(identity(1)).is_err());
    assert_eq!(registry.len(), 1);
}

#[test]
fn prefix_ambiguity_is_reported_as_such_to_the_caller() {
    let mut registry = ClientRegistry::new(MultiClientPolicy::RequireSole);
    let mut a = vec![9u8; 32];
    a[31] = 1;
    let mut b = vec![9u8; 32];
    b[31] = 2;
    registry.insert(FederationIdentity::from_bytes(a)).unwrap();
    registry.insert(FederationIdentity::from_bytes(b)).unwrap();
    let shared = IdentityPrefix::from_bytes(vec![9]);
    let err = registry.get_client_by_prefix(&shared).unwrap_err();
    assert_eq!(err.kind, ErrorKind::BadRequest);
    assert_eq!(err.message, "Multiple clients found for federation id prefix");
    // exactly one match is always served
    let sole = IdentityPrefix::from_bytes(vec![9u8; 31]);
    assert!(registry.resolve_prefix(&sole).is_err());
    let mut exact = vec![9u8; 32];
    exact[31] = 1;
    let handle = registry
        .get_client_by_prefix(&IdentityPrefix::from_bytes(exact.clone()))
        .unwrap();
    assert_eq!(handle.federation.bytes, exact);
}

#[test]
fn get_client_maps_failures_to_bad_request() {
    let registry = ClientRegistry::new(MultiClientPolicy::RequireSole);
    let err = registry.get_client(None).unwrap_err();
    assert_eq!(err.kind, ErrorKind::BadRequest);
    assert_eq!(err.message, "No client found for federation id");
    let err = registry
        .get_client_by_prefix(&IdentityPrefix::from_bytes(vec![1]))
        .unwrap_err();
    assert_eq!(err.kind, ErrorKind::BadRequest);
    assert_eq!(err.message, "No client found for federation id prefix");
}

use async_graphql_relay::node_id::{match_tag, node_or_not_found, split_relay_id};
use async_graphql_relay::schema::{TENANT_UUID, USER_UUID};
use async_graphql_relay::{
    Node, NodeRoute, QueryRoot, RelayContext, RelayError, RelayNodeID, RelayNodeInterface, Tenant,
    User,
};

const OSCAR: &str = "92ba0c2d4b4e4e2991dd8f96a078c3ffu";

fn ctx() -> RelayContext<String> {
    RelayContext::new("Hello World".to_string())
}

#[test]
fn round_trip_user_and_tenant() {
    for v in [0u128, 1, USER_UUID, TENANT_UUID, u128::MAX] {
        let id = RelayNodeID::<User>::new(v);
        let back = RelayNodeID::<User>::new_from_relay_id(id.to_string()).unwrap();
        assert!(back == id);
        assert_eq!(back.to_uuid(), v);
        let tid = RelayNodeID::<Tenant>::new(v);
        let tback = RelayNodeID::<Tenant>::new_from_relay_id(tid.to_string()).unwrap();
        assert_eq!(tback.to_uuid(), v);
    }
}

#[test]
fn opaque_form_of_sample_user() {
    let id = RelayNodeID::<User>::new_from_str("92ba0c2d-4b4e-4e29-91dd-8f96a078c3ff").unwrap();
    assert_eq!(id.to_uuid(), USER_UUID);
    assert_eq!(id.to_string(), OSCAR);
    assert_eq!(RelayNodeID::<User>::new(0).to_string(), "00000000000000000000000000000000u");
    assert_eq!(RelayNodeID::<Tenant>::new(255).to_string(), "000000000000000000000000000000fft");
}

#[test]
fn sample_user_is_fetched_by_its_identifier() {
    match Node::fetch_node(ctx(), OSCAR.to_string()) {
        Ok(Node::User(u)) => {
            assert_eq!(u.name, "Oscar");
            assert_eq!(u.role, "Testing123");
            assert_eq!(u.node_id().to_string(), OSCAR);
        },
        _ => panic!("expected the user"),
    }
}

#[test]
fn identifier_of_unregistered_type_is_refused() {
    let r = RelayNodeID::<Tenant>::new_from_relay_id(OSCAR.to_string());
    assert_eq!(r.err(), Some(RelayError::UnrecognizedType));
    let r = RelayNodeID::<User>::new_from_relay_id("92ba0c2d4b4e4e2991dd8f96a078c3ffx".to_string());
    assert_eq!(r.err(), Some(RelayError::UnrecognizedType));
}

#[test]
fn short_identifier_is_malformed() {
    for s in ["invalid", "", "u", "92ba0c2d4b4e4e2991dd8f96a078c3ff"] {
        let r = RelayNodeID::<User>::new_from_relay_id(s.to_string());
        assert_eq!(r.err(), Some(RelayError::MalformedIdentifier));
        assert_eq!(Node::route(s).err(), Some(RelayError::MalformedIdentifier));
        assert_eq!(split_relay_id(s).err(), Some(RelayError::MalformedIdentifier));
    }
}

#[test]
fn non_hex_prefix_is_malformed() {
    for s in ["92ba0c2d4b4e4e2991dd8f96a078c3fgu", "92ba0c2d-4b4e-4e29-91dd-8f96a078c3ff", "invalid-invalid-invalid-invalid-u"] {
        let r = RelayNodeID::<User>::new_from_relay_id(s.to_string());
        assert_eq!(r.err(), Some(RelayError::MalformedIdentifier));
        assert_eq!(Node::route(s).err(), Some(RelayError::MalformedIdentifier));
    }
}

#[test]
fn upper_case_digits_are_malformed() {
    for s in ["92BA0C2D4B4E4E2991DD8F96A078C3FFu", "92ba0c2d4b4e4e2991dd8f96a078c3Ffu"] {
        let r = RelayNodeID::<User>::new_from_relay_id(s.to_string());
        assert_eq!(r.err(), Some(RelayError::MalformedIdentifier));
        assert_eq!(Node::route(s).err(), Some(RelayError::MalformedIdentifier));
        assert_eq!(split_relay_id(s).err(), Some(RelayError::MalformedIdentifier));
    }
}

#[test]
fn match_tag_finds_the_tag() {
    let tags = vec!["u", "t", "tenant"];
    assert_eq!(match_tag(OSCAR, &tags), Ok((0, USER_UUID)));
    assert_eq!(match_tag("92ba0c2d4b4e4e2991dd8f96a078c3fftenant", &tags), Ok((2, USER_UUID)));
    assert_eq!(match_tag("92ba0c2d4b4e4e2991dd8f96a078c3fften", &tags), Err(RelayError::UnrecognizedType));
    assert_eq!(match_tag("invalid", &tags), Err(RelayError::MalformedIdentifier));
    assert_eq!(match_tag(OSCAR, &vec![]), Err(RelayError::UnrecognizedType));
}

#[test]
fn split_gives_value_and_tag() {
    let (v, tag) = split_relay_id("000000000000000000000000000000ffabc").unwrap();
    assert_eq!(v, 255);
    assert_eq!(tag, "abc");
}

#[test]
fn tags_dispatch_to_their_own_type() {
    match Node::route(OSCAR) {
        Ok(NodeRoute::User(id)) => assert_eq!(id.to_uuid(), USER_UUID),
        _ => panic!("expected a user"),
    }
    let tenant = RelayNodeID::<Tenant>::new(TENANT_UUID).to_string();
    assert_eq!(tenant, "4e02ec03f82f46da857239975bf97d9dt");
    match Node::route(&tenant) {
        Ok(NodeRoute::Tenant(id)) => assert_eq!(id.to_uuid(), TENANT_UUID),
        _ => panic!("expected a tenant"),
    }
    match Node::fetch_node(ctx(), tenant) {
        Ok(Node::Tenant(t)) => {
            assert_eq!(t.name, "My Company");
            assert_eq!(t.id, USER_UUID);
        },
        _ => panic!("expected a tenant"),
    }
}

#[test]
fn unknown_tag_is_unrecognised() {
    for s in ["92ba0c2d4b4e4e2991dd8f96a078c3ffx", "92ba0c2d4b4e4e2991dd8f96a078c3ffuu", "92ba0c2d4b4e4e2991dd8f96a078c3ffU"] {
        assert_eq!(Node::route(s).err(), Some(RelayError::UnrecognizedType));
        assert_eq!(Node::resolve(ctx(), s).err(), Some(RelayError::UnrecognizedType));
    }
}

#[test]
fn context_holds_its_value() {
    let c = RelayContext::new("Hello World".to_string());
    assert_eq!(c.get(), Some(&"Hello World".to_string()));
    let n: RelayContext<String> = RelayContext::nil();
    assert_eq!(n.get(), None);
    let k = RelayContext::new(7u64);
    assert_eq!(k.get(), Some(&7u64));
}

#[test]
fn identifiers_compare_by_value() {
    let a = RelayNodeID::<User>::new(3);
    let b = RelayNodeID::<User>::new(3);
    let c = RelayNodeID::<User>::new(4);
    assert!(a == b);
    assert!(a != c);
    assert!(a.clone() == a);
    assert!(a < c && c > b && a <= b);
}

#[test]
fn text_forms_of_a_value() {
    let hy = RelayNodeID::<User>::new_from_str("92ba0c2d-4b4e-4e29-91dd-8f96a078c3ff").unwrap();
    let simple = RelayNodeID::<User>::new_from_str("92ba0c2d4b4e4e2991dd8f96a078c3ff").unwrap();
    assert!(hy == simple);
    assert_eq!(hy.to_uuid(), USER_UUID);
    let upper = RelayNodeID::<User>::new_from_str("92BA0C2D-4B4E-4E29-91DD-8F96A078C3FF").unwrap();
    assert_eq!(upper.to_uuid(), USER_UUID);
    assert_eq!(
        RelayNodeID::<User>::new_from_str("92ba0c2d+4b4e-4e29-91dd-8f96a078c3ff").err(),
        Some(RelayError::ParseError)
    );
    assert_eq!(
        RelayNodeID::<User>::new_from_str("not a uuid").err(),
        Some(RelayError::ParseError)
    );
    assert_eq!(RelayNodeID::<User>::new_from_str(OSCAR).err(), Some(RelayError::ParseError));
    assert_eq!(RelayNodeID::<User>::new_from_str("").err(), Some(RelayError::ParseError));
}

#[test]
fn fetch_outcomes() {
    assert_eq!(node_or_not_found::<u8>(Ok(None)), Err(RelayError::NotFound));
    assert_eq!(node_or_not_found::<u8>(Ok(Some(4))), Ok(4));
    let failure = RelayError::FetchFailure("storage unavailable".to_string());
    assert_eq!(
        node_or_not_found::<u8>(Err(failure)),
        Err(RelayError::FetchFailure("storage unavailable".to_string()))
    );
}

#[test]
fn query_root_sample_values() {
    let q = QueryRoot;
    let u = q.user();
    assert_eq!(u.node_id().to_string(), OSCAR);
    assert_eq!(u.role, "Testing123");
    let t = q.tenant();
    assert_eq!(t.node_id().to_string(), "4e02ec03f82f46da857239975bf97d9dt");
    assert_eq!(t.description, "Testing123");
    match q.node(OSCAR.to_string()) {
        Ok(Node::User(u)) => assert_eq!(u.name, "Oscar"),
        _ => panic!("expected the user"),
    }
}

#[test]
fn test_tenant_invalid_short_relay_id() {
    assert_eq!(QueryRoot.node("invalid".to_string()).err(), Some(RelayError::MalformedIdentifier));
}

#[test]
fn test_tenant_invalid_long_relay_id() {
    let id = "2b0669af44fb4949bed4d7786cc0164b2b0669af44fb4949bed4d7786cc0164b".to_string();
    assert_eq!(QueryRoot.node(id.clone()).err(), Some(RelayError::MalformedIdentifier));
    assert_eq!(Node::route(&id).err(), Some(RelayError::UnrecognizedType));
}

#[test]
fn sample_routines_ignore_the_requested_value() {
    match Node::fetch_node(ctx(), RelayNodeID::<User>::new(0).to_string()) {
        Ok(Node::User(u)) => assert_eq!(u.id, USER_UUID),
        _ => panic!("expected the user"),
    }
    match Node::fetch_node(ctx(), RelayNodeID::<Tenant>::new(7).to_string()) {
        Ok(Node::Tenant(t)) => {
            assert_eq!(t.id, USER_UUID);
            assert_eq!(t.description, "Testing123");
        },
        _ => panic!("expected the tenant"),
    }
}

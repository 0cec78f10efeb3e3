//! A sample node set of two types, users and tenants, and its query root.
use crate::context::RelayContext;
use crate::error::RelayError;
use crate::hex::all_lower_hex;
use crate::node_id::{
    lemma_round_trip, match_tag, node_or_not_found, relay_id_of, relay_id_parts, RelayNode,
    RelayNodeID, RelayNodeInterface, RelayNodeStruct,
};
use vstd::prelude::*;

verus! {

/// The value of the sample user's identifier.
pub const USER_UUID: u128 = 0x92ba0c2d_4b4e_4e29_91dd_8f96a078c3ff;

/// The value of the sample tenant's identifier.
pub const TENANT_UUID: u128 = 0x4e02ec03_f82f_46da_8572_39975bf97d9d;

/// A user; its identifiers end in `u`.
pub struct User {
    /// The value of its identifier (see `node_id`).
    pub id: u128,
    pub name: String,
    pub role: String,
}

/// A tenant; its identifiers end in `t`.
pub struct Tenant {
    /// The value of its identifier (see `node_id`).
    pub id: u128,
    pub name: String,
    pub description: String,
}

/// A node of any type of the set.
pub enum Node {
    User(User),
    Tenant(Tenant),
}

impl User {
    /// The user's typed identifier.
    pub fn node_id(&self) -> (r: RelayNodeID<User>)
        ensures
            r@ == self.id,
    {
        RelayNodeID::new(self.id)
    }
}

impl Tenant {
    /// The tenant's typed identifier.
    pub fn node_id(&self) -> (r: RelayNodeID<Tenant>)
        ensures
            r@ == self.id,
    {
        RelayNodeID::new(self.id)
    }
}

impl RelayNodeStruct for User {
    open spec fn id_suffix_spec() -> Seq<char> {
        seq!['u']
    }

    proof fn lemma_id_suffix_nonempty() {
    }

    fn id_suffix() -> (r: &'static str) {
        proof {
            reveal_strlit("u");
        }
        "u"
    }
}

impl RelayNodeStruct for Tenant {
    open spec fn id_suffix_spec() -> Seq<char> {
        seq!['t']
    }

    proof fn lemma_id_suffix_nonempty() {
    }

    fn id_suffix() -> (r: &'static str) {
        proof {
            reveal_strlit("t");
        }
        "t"
    }
}

impl RelayNode for User {
    type TNode = Node;

    type Context = String;

    fn get(_ctx: RelayContext<String>, _id: RelayNodeID<User>) -> (r: Result<Option<Node>, RelayError>)
        ensures
            r matches Ok(Some(Node::User(u))) && is_sample_user(u, USER_UUID),
    {
        Ok(Some(Node::User(sample_user(USER_UUID))))
    }
}

impl RelayNode for Tenant {
    type TNode = Node;

    type Context = String;

    fn get(_ctx: RelayContext<String>, _id: RelayNodeID<Tenant>) -> (r: Result<
        Option<Node>,
        RelayError,
    >)
        ensures
            r matches Ok(Some(Node::Tenant(t))) && is_sample_tenant(t, USER_UUID),
    {
        Ok(Some(Node::Tenant(sample_tenant(USER_UUID))))
    }
}

/// The sample user, Oscar, under the value `v`.
pub open spec fn is_sample_user(u: User, v: u128) -> bool {
    u.id == v && u.name@ == "Oscar"@ && u.role@ == "Testing123"@
}

/// The sample tenant, My Company, under the value `v`.
pub open spec fn is_sample_tenant(t: Tenant, v: u128) -> bool {
    t.id == v && t.name@ == "My Company"@ && t.description@ == "Testing123"@
}

/// What fetching the node that `s` names gives, in the sample node set.
pub open spec fn resolves_to(s: Seq<char>, r: Result<Node, RelayError>) -> bool {
    match route_of(s) {
        Err(e) => r == Err::<Node, RelayError>(e),
        Ok((t, _)) => if t == User::id_suffix_spec() {
            r matches Ok(Node::User(u)) && is_sample_user(u, USER_UUID)
        } else {
            r matches Ok(Node::Tenant(x)) && is_sample_tenant(x, USER_UUID)
        },
    }
}

fn sample_user(v: u128) -> (r: User)
    ensures
        is_sample_user(r, v),
{
    User { id: v, name: "Oscar".to_owned(), role: "Testing123".to_owned() }
}

fn sample_tenant(v: u128) -> (r: Tenant)
    ensures
        is_sample_tenant(r, v),
{
    Tenant { id: v, name: "My Company".to_owned(), description: "Testing123".to_owned() }
}

/// The type an opaque identifier names, with its typed identifier.
pub enum NodeRoute {
    User(RelayNodeID<User>),
    Tenant(RelayNodeID<Tenant>),
}

impl View for NodeRoute {
    /// The tag of the type, and the value.
    type V = (Seq<char>, u128);

    open spec fn view(&self) -> (Seq<char>, u128) {
        match self {
            NodeRoute::User(id) => (User::id_suffix_spec(), id@),
            NodeRoute::Tenant(id) => (Tenant::id_suffix_spec(), id@),
        }
    }
}

/// A tag of one of the set's types.
pub open spec fn is_node_tag(t: Seq<char>) -> bool {
    t == User::id_suffix_spec() || t == Tenant::id_suffix_spec()
}

/// Where an opaque identifier leads: the tag of its type and its value, or why it
/// leads nowhere.
pub open spec fn route_of(s: Seq<char>) -> Result<(Seq<char>, u128), RelayError> {
    match relay_id_parts(s) {
        None => Err(RelayError::MalformedIdentifier),
        Some((v, t)) => if is_node_tag(t) {
            Ok((t, v))
        } else {
            Err(RelayError::UnrecognizedType)
        },
    }
}

impl Node {
    /// Finds the type that an opaque identifier names, by exact equality of its tag.
    pub fn route(relay_id: &str) -> (r: Result<NodeRoute, RelayError>)
        ensures
            route_of(relay_id@) matches Ok(p) ==> r matches Ok(x) && x@ == p,
            route_of(relay_id@) matches Err(e) ==> r == Err::<NodeRoute, RelayError>(e),
    {
        let tags = vec![User::id_suffix(), Tenant::id_suffix()];
        proof {
            lemma_node_tags_distinct();
        }
        match match_tag(relay_id, &tags) {
            Err(e) => Err(e),
            Ok((i, v)) => {
                if i == 0 {
                    Ok(NodeRoute::User(RelayNodeID::new(v)))
                } else {
                    Ok(NodeRoute::Tenant(RelayNodeID::new(v)))
                }
            },
        }
    }

    /// Fetches the node that an opaque identifier names, through the fetch routine of
    /// its type.
    pub fn resolve(ctx: RelayContext<String>, relay_id: &str) -> (r: Result<Node, RelayError>)
        ensures
            resolves_to(relay_id@, r),
    {
        proof {
            lemma_node_tags_distinct();
        }
        match Node::route(relay_id) {
            Err(e) => Err(e),
            Ok(NodeRoute::User(id)) => node_or_not_found(User::get(ctx, id)),
            Ok(NodeRoute::Tenant(id)) => node_or_not_found(Tenant::get(ctx, id)),
        }
    }
}

impl RelayNodeInterface for Node {
    type Context = String;

    fn fetch_node(ctx: RelayContext<String>, relay_id: String) -> (r: Result<Node, RelayError>)
        ensures
            resolves_to(relay_id@, r),
    {
        Node::resolve(ctx, relay_id.as_str())
    }
}

/// The two types of the set have different tags.
pub proof fn lemma_node_tags_distinct()
    ensures
        User::id_suffix_spec() != Tenant::id_suffix_spec(),
{
    assert(User::id_suffix_spec()[0] != Tenant::id_suffix_spec()[0]);
}

/// An identifier made with the tag of one of the set's types leads to that type alone,
/// with its value.
pub proof fn lemma_tag_dispatch(v: u128, x: NodeRoute)
    ensures
        route_of(relay_id_of(v, User::id_suffix_spec())) == Ok::<(Seq<char>, u128), RelayError>(
            (User::id_suffix_spec(), v),
        ),
        route_of(relay_id_of(v, Tenant::id_suffix_spec())) == Ok::<
            (Seq<char>, u128),
            RelayError,
        >((Tenant::id_suffix_spec(), v)),
        x@.0 == User::id_suffix_spec() <==> x is User,
        x@.0 == Tenant::id_suffix_spec() <==> x is Tenant,
{
    lemma_node_tags_distinct();
    lemma_round_trip(v, User::id_suffix_spec());
    lemma_round_trip(v, Tenant::id_suffix_spec());
}

/// A well-formed value followed by a tag of none of the set's types is refused as of
/// unrecognised type.
pub proof fn lemma_unknown_tag(v: u128, tag: Seq<char>)
    requires
        tag.len() > 0,
        !is_node_tag(tag),
    ensures
        route_of(relay_id_of(v, tag)) == Err::<(Seq<char>, u128), RelayError>(
            RelayError::UnrecognizedType,
        ),
{
    lemma_round_trip(v, tag);
}

/// An identifier shorter than 33 characters, or whose first 32 characters are not all
/// lower-case digits of base sixteen, is malformed before any tag is looked at.
pub proof fn lemma_malformed_route(s: Seq<char>)
    requires
        s.len() < 33 || !all_lower_hex(s.subrange(0, 32)),
    ensures
        route_of(s) == Err::<(Seq<char>, u128), RelayError>(RelayError::MalformedIdentifier),
{
}

/// The root of the sample schema's queries.
pub struct QueryRoot;

impl QueryRoot {
    /// The sample user.
    pub fn user(&self) -> (r: User)
        ensures
            is_sample_user(r, USER_UUID),
    {
        sample_user(USER_UUID)
    }

    /// The sample tenant.
    pub fn tenant(&self) -> (r: Tenant)
        ensures
            is_sample_tenant(r, TENANT_UUID),
    {
        sample_tenant(TENANT_UUID)
    }

    /// The node that `id` names. Only identifiers of 33 characters, the value and a
    /// one-character tag, are accepted.
    pub fn node(&self, id: String) -> (r: Result<Node, RelayError>)
        ensures
            id@.len() != 33 ==> r == Err::<Node, RelayError>(RelayError::MalformedIdentifier),
            id@.len() == 33 ==> resolves_to(id@, r),
    {
        let text = id.as_str();
        if text.unicode_len() != 33 {
            return Err(RelayError::MalformedIdentifier);
        }
        let ctx = RelayContext::new("Hello World".to_owned());
        Node::resolve(ctx, text)
    }
}

} // verus!

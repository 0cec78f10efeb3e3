//! Typed node identifiers and their opaque wire form.
use crate::context::RelayContext;
use crate::error::RelayError;
use crate::hex::{
    all_hex, all_lower_hex, hex_value, is_lower_hex_str, lemma_lower_hex_is_hex, lemma_simple_form,
    simple_form,
};
use crate::identity::{
    format_simple, hyphenated_digits, is_hyphenated, is_uuid_text_length, parse_uuid, uuid_parse,
};
use std::marker::PhantomData;
use vstd::prelude::*;

verus! {

/// Implemented by every type whose values can be fetched as nodes: the type tag that
/// follows the value in its identifiers. Tags must differ between the types of one
/// node set.
pub trait RelayNodeStruct {
    /// The type tag.
    spec fn id_suffix_spec() -> Seq<char>;

    /// A tag is never empty.
    proof fn lemma_id_suffix_nonempty()
        ensures
            Self::id_suffix_spec().len() > 0,
    ;

    /// The type tag, at run time.
    fn id_suffix() -> (r: &'static str)
        ensures
            r@ == Self::id_suffix_spec(),
    ;
}

/// Implemented by each node type: how a node of it is fetched again from its identifier.
pub trait RelayNode: RelayNodeStruct + Sized {
    /// The node set (the interface type) that this type belongs to.
    type TNode: RelayNodeInterface;

    /// The type of the data that the fetch routine reads from its context.
    type Context;

    /// Fetches the node with identifier `id`: `Ok(None)` where there is none.
    fn get(ctx: RelayContext<Self::Context>, id: RelayNodeID<Self>) -> Result<
        Option<Self::TNode>,
        RelayError,
    >;
}

/// Implemented by the type that stands for a whole node set: fetches a node of any of
/// its types from an opaque identifier.
pub trait RelayNodeInterface: Sized {
    /// The type of the data that the fetch routines read from their context.
    type Context;

    /// Fetches the node that `relay_id` names. An identifier that is too short, or whose
    /// first 32 characters are not lower-case digits of base sixteen, is malformed.
    fn fetch_node(ctx: RelayContext<Self::Context>, relay_id: String) -> (r: Result<
        Self,
        RelayError,
    >)
        ensures
            relay_id_parts(relay_id@) is None ==> r == Err::<Self, RelayError>(
                RelayError::MalformedIdentifier,
            ),
    ;
}

/// The opaque identifier of the node of tag `tag` whose value is `v`: the 32 lower-case
/// digits of `v`, then the tag.
pub open spec fn relay_id_of(v: u128, tag: Seq<char>) -> Seq<char> {
    simple_form(v) + tag
}

/// The value and the tag of an opaque identifier: `None` where it is shorter than 33
/// characters or its first 32 are not all lower-case digits of base sixteen.
pub open spec fn relay_id_parts(s: Seq<char>) -> Option<(u128, Seq<char>)> {
    if s.len() < 33 || !all_lower_hex(s.subrange(0, 32)) {
        None
    } else {
        Some((hex_value(s.subrange(0, 32)) as u128, s.subrange(32, s.len() as int)))
    }
}

/// What decoding `s` as an identifier of the type of tag `tag` gives.
pub open spec fn decode_relay_id(s: Seq<char>, tag: Seq<char>) -> Result<u128, RelayError> {
    match relay_id_parts(s) {
        None => Err(RelayError::MalformedIdentifier),
        Some((v, t)) => if t == tag {
            Ok(v)
        } else {
            Err(RelayError::UnrecognizedType)
        },
    }
}

/// Splits an opaque identifier into its value and its type tag.
pub fn split_relay_id(relay_id: &str) -> (r: Result<(u128, String), RelayError>)
    ensures
        relay_id_parts(relay_id@) is None ==> r == Err::<(u128, String), RelayError>(
            RelayError::MalformedIdentifier,
        ),
        relay_id_parts(relay_id@) matches Some((v, t)) ==> r matches Ok((v2, t2)) && v2 == v
            && t2@ == t,
{
    let n = relay_id.unicode_len();
    if n < 33 {
        return Err(RelayError::MalformedIdentifier);
    }
    let prefix = relay_id.substring_char(0, 32);
    if !is_lower_hex_str(prefix) {
        return Err(RelayError::MalformedIdentifier);
    }
    proof {
        lemma_lower_hex_is_hex(prefix@);
    }
    match parse_uuid(prefix) {
        None => Err(RelayError::MalformedIdentifier),
        Some(v) => {
            let tag = relay_id.substring_char(32, n);
            Ok((v, tag.to_owned()))
        },
    }
}

/// Finds which of the tags of a node set an opaque identifier names, by exact equality
/// of everything after its value: the position of the first such tag, and the value.
/// The tags must differ from each other, so that the tag found is the only one that
/// matches.
pub fn match_tag(relay_id: &str, tags: &Vec<&str>) -> (r: Result<(usize, u128), RelayError>)
    requires
        forall|a: int, b: int| 0 <= a < b < tags@.len() ==> tags@[a]@ != tags@[b]@,
    ensures
        relay_id_parts(relay_id@) is None ==> r == Err::<(usize, u128), RelayError>(
            RelayError::MalformedIdentifier,
        ),
        relay_id_parts(relay_id@) matches Some((v, t)) ==> {
            &&& r matches Ok((i, w)) ==> {
                &&& i < tags@.len()
                &&& tags@[i as int]@ == t
                &&& w == v
                &&& forall|j: int| 0 <= j < i ==> #[trigger] tags@[j]@ != t
            }
            &&& !(r is Ok) ==> {
                &&& r == Err::<(usize, u128), RelayError>(RelayError::UnrecognizedType)
                &&& forall|j: int| 0 <= j < tags@.len() ==> #[trigger] tags@[j]@ != t
            }
        },
{
    match split_relay_id(relay_id) {
        Err(e) => Err(e),
        Ok((v, tag)) => {
            let mut i: usize = 0;
            while i < tags.len()
                invariant
                    relay_id_parts(relay_id@) == Some((v, tag@)),
                    i <= tags@.len(),
                    forall|j: int| 0 <= j < i ==> #[trigger] tags@[j]@ != tag@,
                decreases tags@.len() - i,
            {
                if tag == tags[i].to_owned() {
                    return Ok((i, v));
                }
                i = i + 1;
            }
            Err(RelayError::UnrecognizedType)
        },
    }
}

/// Where the tags of a node set differ from each other, an identifier's tag equals the
/// tag at one position only: the one that `match_tag` finds.
pub proof fn lemma_tag_matches_once(tags: Seq<Seq<char>>, i: int, t: Seq<char>)
    requires
        forall|a: int, b: int| 0 <= a < b < tags.len() ==> tags[a] != tags[b],
        0 <= i < tags.len(),
        tags[i] == t,
    ensures
        forall|j: int| 0 <= j < tags.len() && j != i ==> tags[j] != t,
{
    assert forall|j: int| 0 <= j < tags.len() && j != i implies tags[j] != t by {
        if j < i {
            assert(tags[j] != tags[i]);
        } else {
            assert(tags[i] != tags[j]);
        }
    }
}

/// What a fetch routine's outcome means for the caller: a node, `NotFound` where the
/// routine found none, or the routine's own error, unchanged.
pub fn node_or_not_found<N>(fetched: Result<Option<N>, RelayError>) -> (r: Result<N, RelayError>)
    ensures
        fetched matches Ok(Some(n)) ==> r == Ok::<N, RelayError>(n),
        fetched matches Ok(None) ==> r == Err::<N, RelayError>(RelayError::NotFound),
        fetched matches Err(e) ==> r == Err::<N, RelayError>(e),
{
    match fetched {
        Ok(Some(n)) => Ok(n),
        Ok(None) => Err(RelayError::NotFound),
        Err(e) => Err(e),
    }
}

/// The identifier of a node of type `T`: a 128-bit value bound to that type. Two
/// identifiers are equal when their values are.
pub struct RelayNodeID<T: RelayNodeStruct> {
    uuid: u128,
    node: PhantomData<T>,
}

impl<T: RelayNodeStruct> View for RelayNodeID<T> {
    type V = u128;

    closed spec fn view(&self) -> u128 {
        self.uuid
    }
}

impl<T: RelayNodeStruct> RelayNodeID<T> {
    /// The identifier of value `uuid`.
    pub fn new(uuid: u128) -> (r: Self)
        ensures
            r@ == uuid,
    {
        RelayNodeID { uuid, node: PhantomData }
    }

    /// Decodes an opaque identifier of a node of type `T`.
    pub fn new_from_relay_id(relay_id: String) -> (r: Result<Self, RelayError>)
        ensures
            decode_relay_id(relay_id@, T::id_suffix_spec()) matches Ok(v) ==> r matches Ok(id)
                && id@ == v,
            decode_relay_id(relay_id@, T::id_suffix_spec()) matches Err(e) ==> r == Err::<
                Self,
                RelayError,
            >(e),
    {
        match split_relay_id(relay_id.as_str()) {
            Err(e) => Err(e),
            Ok((v, tag)) => {
                let own = T::id_suffix().to_owned();
                if tag == own {
                    Ok(Self::new(v))
                } else {
                    Err(RelayError::UnrecognizedType)
                }
            },
        }
    }

    /// Reads a 128-bit value in any of the textual forms of a UUID: among them 32 digits
    /// of base sixteen, or the hyphenated form.
    pub fn new_from_str(uuid: &str) -> (r: Result<Self, RelayError>)
        ensures
            uuid@.len() == 32 && all_hex(uuid@) ==> (r matches Ok(id) && id@ == hex_value(uuid@)
                as u128),
            uuid@.len() == 32 && !all_hex(uuid@) ==> r == Err::<Self, RelayError>(
                RelayError::ParseError,
            ),
            is_hyphenated(uuid@) ==> (r matches Ok(id) && id@ == hex_value(
                hyphenated_digits(uuid@),
            ) as u128),
            uuid@.len() == 36 && !is_hyphenated(uuid@) ==> r == Err::<Self, RelayError>(
                RelayError::ParseError,
            ),
            !is_uuid_text_length(uuid@.len()) ==> r == Err::<Self, RelayError>(
                RelayError::ParseError,
            ),
            uuid_parse(uuid@) matches Some(v) ==> r matches Ok(id) && id@ == v,
            uuid_parse(uuid@) is None ==> r == Err::<Self, RelayError>(RelayError::ParseError),
    {
        match parse_uuid(uuid) {
            Some(v) => Ok(Self::new(v)),
            None => Err(RelayError::ParseError),
        }
    }

    /// The bare value, for storage keys and the like. Without its type it is no longer
    /// globally unique.
    pub fn to_uuid(&self) -> (r: u128)
        ensures
            r == self@,
    {
        self.uuid
    }

    /// The opaque identifier: the value's 32 lower-case digits, then `T`'s tag.
    pub fn to_string(&self) -> (r: String)
        ensures
            r@ == relay_id_of(self@, T::id_suffix_spec()),
    {
        let digits = format_simple(self.uuid);
        digits.concat(T::id_suffix())
    }
}

impl<T: RelayNodeStruct> Clone for RelayNodeID<T> {
    fn clone(&self) -> (r: Self)
        ensures
            r@ == self@,
    {
        RelayNodeID { uuid: self.uuid, node: PhantomData }
    }
}

impl<T: RelayNodeStruct> PartialEq for RelayNodeID<T> {
    fn eq(&self, other: &Self) -> (r: bool) {
        self.uuid == other.uuid
    }
}

impl<T: RelayNodeStruct> vstd::std_specs::cmp::PartialEqSpecImpl for RelayNodeID<T> {
    open spec fn obeys_eq_spec() -> bool {
        true
    }

    open spec fn eq_spec(&self, other: &Self) -> bool {
        self@ == other@
    }
}

impl<T: RelayNodeStruct> Eq for RelayNodeID<T> {

}

/// Identifiers are ordered by their values.
pub open spec fn compare_values(a: u128, b: u128) -> Option<std::cmp::Ordering> {
    if a < b {
        Some(std::cmp::Ordering::Less)
    } else if a == b {
        Some(std::cmp::Ordering::Equal)
    } else {
        Some(std::cmp::Ordering::Greater)
    }
}

impl<T: RelayNodeStruct> PartialOrd for RelayNodeID<T> {
    fn partial_cmp(&self, other: &Self) -> (r: Option<std::cmp::Ordering>) {
        if self.uuid < other.uuid {
            Some(std::cmp::Ordering::Less)
        } else if self.uuid == other.uuid {
            Some(std::cmp::Ordering::Equal)
        } else {
            Some(std::cmp::Ordering::Greater)
        }
    }
}

impl<T: RelayNodeStruct> vstd::std_specs::cmp::PartialOrdSpecImpl for RelayNodeID<T> {
    open spec fn obeys_partial_cmp_spec() -> bool {
        true
    }

    open spec fn partial_cmp_spec(&self, other: &Self) -> Option<std::cmp::Ordering> {
        compare_values(self@, other@)
    }
}

/// Decoding the identifier made from a value, under the same tag, gives the value back.
pub proof fn lemma_round_trip(v: u128, tag: Seq<char>)
    requires
        tag.len() > 0,
    ensures
        relay_id_parts(relay_id_of(v, tag)) == Some((v, tag)),
        decode_relay_id(relay_id_of(v, tag), tag) == Ok::<u128, RelayError>(v),
{
    lemma_simple_form(v);
    let s = relay_id_of(v, tag);
    assert(s.subrange(0, 32) =~= simple_form(v));
    assert(s.subrange(32, s.len() as int) =~= tag);
}

/// For every node type, decoding the opaque form of an identifier gives that identifier.
pub proof fn lemma_typed_round_trip<T: RelayNodeStruct>(id: RelayNodeID<T>)
    ensures
        decode_relay_id(relay_id_of(id@, T::id_suffix_spec()), T::id_suffix_spec()) == Ok::<
            u128,
            RelayError,
        >(id@),
{
    T::lemma_id_suffix_nonempty();
    lemma_round_trip(id@, T::id_suffix_spec());
}

/// An identifier shorter than 33 characters is malformed, whatever it holds.
pub proof fn lemma_short_is_malformed(s: Seq<char>, tag: Seq<char>)
    requires
        s.len() < 33,
    ensures
        relay_id_parts(s) is None,
        decode_relay_id(s, tag) == Err::<u128, RelayError>(RelayError::MalformedIdentifier),
{
}

/// An identifier whose first 32 characters are not all lower-case digits of base
/// sixteen is malformed, whatever follows them.
pub proof fn lemma_non_hex_is_malformed(s: Seq<char>, tag: Seq<char>)
    requires
        s.len() >= 33,
        !all_lower_hex(s.subrange(0, 32)),
    ensures
        relay_id_parts(s) is None,
        decode_relay_id(s, tag) == Err::<u128, RelayError>(RelayError::MalformedIdentifier),
{
}

} // verus!

//! The headers of a published message, kept in the message bus client's
//! own header map.

use vstd::prelude::*;
use crate::capture::{is_node_char, valid_node_id};
use crate::text::chars_of;

verus! {

/// `async_nats::HeaderMap`, the message bus client's map from header names
/// to their values. Nothing is known of what is inside a value but through
/// [`header_entries`].
#[verifier::external_type_specification]
#[verifier::external_body]
pub struct ExHeaderMap(async_nats::HeaderMap);

/// What a header map holds: each name with its values.
pub uninterp spec fn header_entries(headers: async_nats::HeaderMap) -> Map<Seq<char>, Seq<Seq<char>>>;

/// Whether a text can be a header's name: only visible ASCII characters,
/// and no colon.
pub open spec fn is_header_name(name: Seq<char>) -> bool {
    forall|i: int|
        0 <= i < name.len() ==> 0x21 <= (#[trigger] name[i]) as u32 <= 0x7e && name[i] != ':'
}

/// Whether a text can be a header's value: no carriage return and no line
/// feed.
pub open spec fn is_header_value(value: Seq<char>) -> bool {
    forall|i: int| 0 <= i < value.len() ==> (#[trigger] value[i]) != '\r' && value[i] != '\n'
}

/// The entries of a header map that holds nothing.
pub open spec fn no_headers() -> Map<Seq<char>, Seq<Seq<char>>> {
    Map::empty()
}

/// The headers of a published message: `NodeID` where a node id is
/// configured, `Interface` and `Timestamp`, each with one value.
pub open spec fn message_headers(
    node_id: Option<Seq<char>>,
    interface: Seq<char>,
    timestamp: Seq<char>,
) -> Map<Seq<char>, Seq<Seq<char>>> {
    let base = match node_id {
        Some(id) => no_headers().insert("NodeID"@, seq![id]),
        None => no_headers(),
    };
    base.insert("Interface"@, seq![interface]).insert("Timestamp"@, seq![timestamp])
}

/// `async_nats::HeaderMap::new` makes a map without entries.
#[verifier::external_body]
pub(crate) fn new_header_map() -> (headers: async_nats::HeaderMap)
    ensures
        header_entries(headers) == no_headers(),
{
    async_nats::HeaderMap::new()
}

/// `async_nats::HeaderMap::insert` puts the one value under the name, in
/// place of whatever values the name had. It panics on a name with a colon
/// or a character that is not visible ASCII, and on a value with a
/// carriage return or a line feed: the contract leaves those out.
#[verifier::external_body]
pub(crate) fn insert_header(headers: &mut async_nats::HeaderMap, name: &str, value: &str)
    requires
        is_header_name(name@),
        is_header_value(value@),
    ensures
        header_entries(*final(headers)) == header_entries(*old(headers)).insert(
            name@,
            seq![value@],
        ),
{
    headers.insert(name, value);
}

/// Whether a text can be a header's value.
pub fn header_value_ok(value: &str) -> (ok: bool)
    ensures
        ok == is_header_value(value@),
{
    let chars = chars_of(value);
    let mut i: usize = 0;
    while i < chars.len()
        invariant
            i <= chars@.len(),
            chars@ == value@,
            forall|k: int| 0 <= k < i ==> (#[trigger] value@[k]) != '\r' && value@[k] != '\n',
        decreases chars@.len() - i,
    {
        if chars[i] == '\r' || chars[i] == '\n' {
            return false;
        }
        i = i + 1;
    }
    true
}

/// A node id can be a header's value.
pub proof fn lemma_node_id_is_header_value(id: Seq<char>)
    requires
        valid_node_id(id),
    ensures
        is_header_value(id),
{
    assert forall|i: int| 0 <= i < id.len() implies (#[trigger] id[i]) != '\r' && id[i]
        != '\n' by {
        assert(is_node_char(id[i]));
    }
}

/// Whether the three texts can all be header values; a node id that is
/// not configured stands in no one's way.
pub open spec fn headers_allowed(
    node_id: Option<Seq<char>>,
    interface: Seq<char>,
    timestamp: Seq<char>,
) -> bool {
    &&& match node_id {
        Some(id) => is_header_value(id),
        None => true,
    }
    &&& is_header_value(interface)
    &&& is_header_value(timestamp)
}

/// Builds the header map of a message. It is refused, with nothing built,
/// where the node id, the interface's name or the timestamp cannot be a
/// header's value.
pub fn build_headers(node_id: &Option<String>, interface: &str, timestamp: &str) -> (r: Option<
    async_nats::HeaderMap,
>)
    ensures
        r is Some <==> headers_allowed(
            match *node_id {
                Some(id) => Some(id@),
                None => None,
            },
            interface@,
            timestamp@,
        ),
        r is Some ==> header_entries(r->Some_0) == message_headers(
            match *node_id {
                Some(id) => Some(id@),
                None => None,
            },
            interface@,
            timestamp@,
        ),
{
    if !header_value_ok(interface) || !header_value_ok(timestamp) {
        return None;
    }
    proof {
        reveal_strlit("NodeID");
        reveal_strlit("Interface");
        reveal_strlit("Timestamp");
    }
    let mut headers = new_header_map();
    if let Some(id) = node_id {
        if !header_value_ok(id.as_str()) {
            return None;
        }
        insert_header(&mut headers, "NodeID", id.as_str());
    }
    insert_header(&mut headers, "Interface", interface);
    insert_header(&mut headers, "Timestamp", timestamp);
    Some(headers)
}

/// The node id of a well-formed session never stands in the way of its
/// headers: they are built whenever the interface's name and the timestamp
/// hold no line break.
pub proof fn lemma_valid_node_id_allows_headers(
    id: Seq<char>,
    interface: Seq<char>,
    timestamp: Seq<char>,
)
    requires
        valid_node_id(id),
    ensures
        headers_allowed(Some(id), interface, timestamp) == (is_header_value(interface)
            && is_header_value(timestamp)),
{
    lemma_node_id_is_header_value(id);
}

} // verus!

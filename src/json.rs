use vstd::prelude::*;
use serde_json::Value;

verus! {

/// The outermost value of a JSON document, taken one level deep: the
/// elements of an array and the members of an object are kept as JSON text
/// of their own, to be read in turn.
pub enum JsonNode {
    Null,
    Bool(bool),
    /// A number, with its value where it is an integer in the range of `u64`.
    Number(Option<u64>),
    Str(String),
    Array(Vec<String>),
    Object(Vec<(String, String)>),
}

/// The mathematical form of a `JsonNode`.
pub enum NodeView {
    Null,
    Bool(bool),
    Number(Option<u64>),
    Str(Seq<char>),
    Array(Seq<Seq<char>>),
    Object(Seq<(Seq<char>, Seq<char>)>),
}

impl View for JsonNode {
    type V = NodeView;

    open spec fn view(&self) -> NodeView {
        match self {
            JsonNode::Null => NodeView::Null,
            JsonNode::Bool(b) => NodeView::Bool(*b),
            JsonNode::Number(n) => NodeView::Number(*n),
            JsonNode::Str(s) => NodeView::Str(s@),
            JsonNode::Array(items) => NodeView::Array(items@.map_values(|t: String| t@)),
            JsonNode::Object(members) => NodeView::Object(
                members@.map_values(|m: (String, String)| (m.0@, m.1@)),
            ),
        }
    }
}

/// What serde_json reads from a text: `None` where the text is not one
/// well-formed JSON document.
pub uninterp spec fn json_node_of(text: Seq<char>) -> Option<NodeView>;

pub open spec fn opt_node_view(n: Option<JsonNode>) -> Option<NodeView> {
    match n {
        Some(v) => Some(v@),
        None => None,
    }
}

/// Relies on serde_json::from_str::<Value> to parse a whole document, and on
/// its Value enum: each variant is moved into the node one for one, a number
/// through Number::as_u64, an element or member value through its JSON text
/// (Value's Display).
#[verifier::external_body]
fn parse_node(text: &str) -> (r: Option<JsonNode>)
    ensures
        opt_node_view(r) == json_node_of(text@),
{
    match serde_json::from_str::<Value>(text) {
        Err(_) => None,
        Ok(Value::Null) => Some(JsonNode::Null),
        Ok(Value::Bool(b)) => Some(JsonNode::Bool(b)),
        Ok(Value::Number(n)) => Some(JsonNode::Number(n.as_u64())),
        Ok(Value::String(s)) => Some(JsonNode::Str(s)),
        Ok(Value::Array(a)) => Some(JsonNode::Array(a.iter().map(|v| v.to_string()).collect())),
        Ok(Value::Object(m)) => Some(
            JsonNode::Object(m.into_iter().map(|(k, v)| (k, v.to_string())).collect()),
        ),
    }
}

/// The value text of the first member named `key`.
pub open spec fn member(members: Seq<(Seq<char>, Seq<char>)>, key: Seq<char>) -> Option<
    Seq<char>,
>
    decreases members.len(),
{
    if members.len() == 0 {
        None
    } else if members[0].0 == key {
        Some(members[0].1)
    } else {
        member(members.drop_first(), key)
    }
}

/// The text of field `key` of the object that `text` holds; `None` where
/// `text` is no object or has no such field.
pub open spec fn field_of(text: Seq<char>, key: Seq<char>) -> Option<Seq<char>> {
    match json_node_of(text) {
        Some(NodeView::Object(members)) => member(members, key),
        _ => None,
    }
}

/// The string that `text` holds, if it holds a string.
pub open spec fn string_of(text: Seq<char>) -> Option<Seq<char>> {
    match json_node_of(text) {
        Some(NodeView::Str(s)) => Some(s),
        _ => None,
    }
}

/// The unsigned integer that `text` holds, if it holds one in range.
pub open spec fn u64_of(text: Seq<char>) -> Option<u64> {
    match json_node_of(text) {
        Some(NodeView::Number(Some(n))) => Some(n),
        _ => None,
    }
}

/// The element texts of the array that `text` holds.
pub open spec fn elements_of(text: Seq<char>) -> Option<Seq<Seq<char>>> {
    match json_node_of(text) {
        Some(NodeView::Array(items)) => Some(items),
        _ => None,
    }
}

/// The strings of an array of strings; `None` where `text` is no array or
/// one element is no string.
pub open spec fn strings_of(text: Seq<char>) -> Option<Seq<Seq<char>>> {
    match elements_of(text) {
        Some(items) => if forall|i: int| 0 <= i < items.len() ==> #[trigger] string_of(items[i]).is_some() {
            Some(Seq::new(items.len(), |i: int| string_of(items[i]).unwrap()))
        } else {
            None
        },
        None => None,
    }
}

/// Parses `text` as one JSON document, one level deep.
pub fn read_node(text: &str) -> (r: Option<JsonNode>)
    ensures
        opt_node_view(r) == json_node_of(text@),
{
    parse_node(text)
}

/// The text of field `key` of the object that `text` holds.
pub fn read_field(text: &str, key: &str) -> (r: Option<String>)
    ensures
        match r {
            Some(t) => field_of(text@, key@) == Some(t@),
            None => field_of(text@, key@).is_none(),
        },
{
    match parse_node(text) {
        Some(JsonNode::Object(members)) => {
            let wanted = String::from_str(key);
            let mut i: usize = 0;
            assert(members@.map_values(|m: (String, String)| (m.0@, m.1@)).skip(0) =~= members@.map_values(|m: (String, String)| (m.0@, m.1@)));
            while i < members.len()
                invariant
                    0 <= i <= members@.len(),
                    json_node_of(text@) == Some(NodeView::Object(members@.map_values(|m: (String, String)| (m.0@, m.1@)))),
                    field_of(text@, key@) == member(
                        members@.map_values(|m: (String, String)| (m.0@, m.1@)).skip(i as int),
                        key@,
                    ),
                    wanted@ == key@,
                decreases members@.len() - i,
            {
                let ghost ms = members@.map_values(|m: (String, String)| (m.0@, m.1@));
                assert(ms.skip(i as int).drop_first() =~= ms.skip(i + 1));
                assert(ms.skip(i as int)[0] == ms[i as int]);
                assert(ms[i as int] == (members@[i as int].0@, members@[i as int].1@));
                if members[i].0 == wanted {
                    assert(member(ms.skip(i as int), key@) == Some(members@[i as int].1@));
                    return Some(members[i].1.clone());
                }
                i += 1;
            }
            None
        },
        _ => None,
    }
}

/// The string that `text` holds, if it holds a string.
pub fn read_string(text: &str) -> (r: Option<String>)
    ensures
        match r {
            Some(s) => string_of(text@) == Some(s@),
            None => string_of(text@).is_none(),
        },
{
    match parse_node(text) {
        Some(JsonNode::Str(s)) => Some(s),
        _ => None,
    }
}

/// The unsigned integer that `text` holds, if it holds one in range.
pub fn read_u64(text: &str) -> (r: Option<u64>)
    ensures
        r == u64_of(text@),
{
    match parse_node(text) {
        Some(JsonNode::Number(n)) => n,
        _ => None,
    }
}

/// The element texts of the array that `text` holds.
pub fn read_elements(text: &str) -> (r: Option<Vec<String>>)
    ensures
        match r {
            Some(items) => elements_of(text@) == Some(items@.map_values(|t: String| t@)),
            None => elements_of(text@).is_none(),
        },
{
    match parse_node(text) {
        Some(JsonNode::Array(items)) => Some(items),
        _ => None,
    }
}

/// The strings of an array of strings.
pub fn read_strings(text: &str) -> (r: Option<Vec<String>>)
    ensures
        match r {
            Some(v) => strings_of(text@) == Some(v@.map_values(|s: String| s@)),
            None => strings_of(text@).is_none(),
        },
{
    let items = match read_elements(text) {
        Some(items) => items,
        None => return None,
    };
    let ghost texts = items@.map_values(|t: String| t@);
    let mut out: Vec<String> = Vec::new();
    let mut i: usize = 0;
    while i < items.len()
        invariant
            0 <= i <= items@.len(),
            texts == items@.map_values(|t: String| t@),
            elements_of(text@) == Some(texts),
            out@.len() == i,
            forall|j: int| 0 <= j < i ==> #[trigger] string_of(texts[j]) == Some(out@[j]@),
        decreases items@.len() - i,
    {
        match read_string(items[i].as_str()) {
            Some(s) => out.push(s),
            None => {
                assert(string_of(texts[i as int]).is_none());
                return None;
            },
        }
        i += 1;
    }
    assert(strings_of(text@) == Some(out@.map_values(|s: String| s@))) by {
        assert forall|j: int| 0 <= j < texts.len() implies #[trigger] string_of(texts[j]).is_some() by {
            assert(string_of(texts[j]) == Some(out@[j]@));
        }
        assert(Seq::new(texts.len(), |j: int| string_of(texts[j]).unwrap()) =~= out@.map_values(|s: String| s@));
    }
    Some(out)
}

} // verus!

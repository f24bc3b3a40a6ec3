use vstd::prelude::*;

verus! {

/// A decoded JSON document. Numbers keep their text as the parser records it;
/// strings and keys are UTF-8 bytes.
#[derive(Debug)]
pub enum Json {
    Null,
    Bool(bool),
    Number(Vec<u8>),
    Text(Vec<u8>),
    Array(Vec<Json>),
    Object(Vec<Member>),
}

/// One `key: value` entry of a JSON object.
#[derive(Debug)]
pub struct Member {
    pub key: Vec<u8>,
    pub value: Json,
}

/// The value of the first member of `members` under `key`.
pub open spec fn member_named(members: Seq<Member>, key: Seq<u8>) -> Option<Json>
    decreases members.len(),
{
    if members.len() == 0 {
        None
    } else if members[0].key@ == key {
        Some(members[0].value)
    } else {
        member_named(members.drop_first(), key)
    }
}

/// The value that a lookup found, if any.
pub open spec fn found(r: Option<&Json>) -> Option<Json> {
    match r {
        Some(v) => Some(*v),
        None => None,
    }
}

impl Json {
    /// The member `key` of an object.
    pub open spec fn field(self, key: Seq<u8>) -> Option<Json> {
        match self {
            Json::Object(members) => member_named(members@, key),
            _ => None,
        }
    }

    /// The element at `index` of an array.
    pub open spec fn element(self, index: int) -> Option<Json> {
        match self {
            Json::Array(items) => if 0 <= index < items@.len() {
                Some(items@[index])
            } else {
                None
            },
            _ => None,
        }
    }

    /// A string whose bytes are `text`.
    pub open spec fn is_text_of(self, text: Seq<u8>) -> bool {
        match self {
            Json::Text(t) => t@ == text,
            _ => false,
        }
    }

    /// The text of a number or of a string.
    pub open spec fn scalar_text(self) -> Option<Seq<u8>> {
        match self {
            Json::Number(t) => Some(t@),
            Json::Text(t) => Some(t@),
            _ => None,
        }
    }

    pub fn get(&self, key: &[u8]) -> (r: Option<&Json>)
        ensures
            found(r) == self.field(key@),
    {
        match self {
            Json::Object(members) => {
                let mut i: usize = 0;
                assert(members@.subrange(0, members@.len() as int) =~= members@);
                while i < members.len()
                    invariant
                        i <= members@.len(),
                        self.field(key@) == member_named(members@, key@),
                        member_named(members@, key@) == member_named(
                            members@.subrange(i as int, members@.len() as int),
                            key@,
                        ),
                    decreases members@.len() - i,
                {
                    let ghost rest = members@.subrange(i as int, members@.len() as int);
                    assert(rest.drop_first() =~= members@.subrange(i + 1, members@.len() as int));
                    assert(rest[0] == members@[i as int]);
                    if bytes_equal(members[i].key.as_slice(), key) {
                        return Some(&members[i].value);
                    }
                    i = i + 1;
                }
                None
            },
            _ => None,
        }
    }

    pub fn at(&self, index: usize) -> (r: Option<&Json>)
        ensures
            found(r) == self.element(index as int),
    {
        match self {
            Json::Array(items) => if index < items.len() {
                Some(&items[index])
            } else {
                None
            },
            _ => None,
        }
    }

    pub fn is_text(&self, text: &[u8]) -> (r: bool)
        ensures
            r == self.is_text_of(text@),
    {
        match self {
            Json::Text(t) => bytes_equal(t.as_slice(), text),
            _ => false,
        }
    }

    pub fn scalar(&self) -> (r: Option<&[u8]>)
        ensures
            r matches Some(t) ==> self.scalar_text() == Some(t@),
            r is None ==> self.scalar_text() is None,
    {
        match self {
            Json::Number(t) => Some(t.as_slice()),
            Json::Text(t) => Some(t.as_slice()),
            _ => None,
        }
    }
}

pub fn bytes_equal(a: &[u8], b: &[u8]) -> (r: bool)
    ensures
        r == (a@ == b@),
{
    if a.len() != b.len() {
        return false;
    }
    let mut i: usize = 0;
    while i < a.len()
        invariant
            a@.len() == b@.len(),
            i <= a@.len(),
            forall|j: int| 0 <= j < i ==> a@[j] == b@[j],
        decreases a@.len() - i,
    {
        if a[i] != b[i] {
            return false;
        }
        i = i + 1;
    }
    assert(a@ =~= b@);
    true
}

#[verifier::external_type_specification]
#[verifier::external_body]
pub struct ExJsonValue(serde_json::Value);

/// What serde_json makes of `text`: `None` where it is not one JSON
/// document.
pub uninterp spec fn parsed_json(text: Seq<u8>) -> Option<Json>;

/// Relies on serde_json::from_slice, which reads one JSON document and
/// depends on the bytes alone.
#[verifier::external_body]
pub(crate) fn parse_json(text: &[u8]) -> (r: Option<Json>)
    ensures
        r == parsed_json(text@),
{
    serde_json::from_slice::<serde_json::Value>(text).ok().map(json_from_value)
}

/// The conversion half of `parse_json`, apart only because it recurses:
/// moves a serde_json value into a `Json`, variant for variant. A number
/// keeps the text serde_json's `arbitrary_precision` records for it: the
/// digits and point as written, an exponent as `e` with its sign.
#[verifier::external_body]
fn json_from_value(v: serde_json::Value) -> Json {
    match v {
        serde_json::Value::Null => Json::Null,
        serde_json::Value::Bool(b) => Json::Bool(b),
        serde_json::Value::Number(n) => Json::Number(n.as_str().as_bytes().to_vec()),
        serde_json::Value::String(s) => Json::Text(s.into_bytes()),
        serde_json::Value::Array(a) => Json::Array(a.into_iter().map(json_from_value).collect()),
        serde_json::Value::Object(m) => Json::Object(
            m.into_iter().map(|(k, v)| Member { key: k.into_bytes(), value: json_from_value(v) }).collect(),
        ),
    }
}

} // verus!

//! The JSON documents exchanged with Transmission, down to the depth the
//! protocol reads: a top-level object whose members are values or objects
//! of values. Conversion to and from JSON text happens outside this crate.

use vstd::prelude::*;
use vstd::string::*;
use crate::text::{str_eq, views};

verus! {

/// A JSON value inside an object.
#[derive(Debug, Clone)]
pub enum JsonLeaf {
    Null,
    Bool(bool),
    /// A number that is a non-negative integer within `u64`.
    UInt(u64),
    /// Any other number (negative or fractional).
    OtherNumber,
    Str(String),
    /// An array whose elements are all strings.
    StrArray(Vec<String>),
    /// Any other array or object; its contents are not read.
    Composite,
}

/// The plain value of a [`JsonLeaf`].
pub enum JsonLeafView {
    Null,
    Bool(bool),
    UInt(u64),
    OtherNumber,
    Str(Seq<char>),
    StrArray(Seq<Seq<char>>),
    Composite,
}

impl View for JsonLeaf {
    type V = JsonLeafView;

    open spec fn view(&self) -> JsonLeafView {
        match self {
            JsonLeaf::Null => JsonLeafView::Null,
            JsonLeaf::Bool(b) => JsonLeafView::Bool(*b),
            JsonLeaf::UInt(n) => JsonLeafView::UInt(*n),
            JsonLeaf::OtherNumber => JsonLeafView::OtherNumber,
            JsonLeaf::Str(s) => JsonLeafView::Str(s@),
            JsonLeaf::StrArray(v) => JsonLeafView::StrArray(views(v@)),
            JsonLeaf::Composite => JsonLeafView::Composite,
        }
    }
}

/// One member of a JSON object.
#[derive(Debug, Clone)]
pub struct JsonMember {
    pub key: String,
    pub value: JsonLeaf,
}

/// A JSON object of values, members in order.
#[derive(Debug, Clone)]
pub struct JsonObject {
    pub members: Vec<JsonMember>,
}

/// The plain value of a [`JsonObject`].
pub type JsonObjectView = Seq<(Seq<char>, JsonLeafView)>;

impl View for JsonObject {
    type V = JsonObjectView;

    open spec fn view(&self) -> JsonObjectView {
        self.members@.map_values(|m: JsonMember| (m.key@, m.value@))
    }
}

/// A member of the top-level object: a value or an object of values.
#[derive(Debug)]
pub enum JsonField {
    Leaf(JsonLeaf),
    Object(JsonObject),
}

/// The plain value of a [`JsonField`].
pub enum JsonFieldView {
    Leaf(JsonLeafView),
    Object(JsonObjectView),
}

impl View for JsonField {
    type V = JsonFieldView;

    open spec fn view(&self) -> JsonFieldView {
        match self {
            JsonField::Leaf(l) => JsonFieldView::Leaf(l@),
            JsonField::Object(o) => JsonFieldView::Object(o@),
        }
    }
}

/// One member of the top-level object.
#[derive(Debug)]
pub struct JsonTopMember {
    pub key: String,
    pub value: JsonField,
}

/// A JSON document: an object, or anything else.
#[derive(Debug)]
pub enum JsonDocument {
    Object(Vec<JsonTopMember>),
    /// Not an object; nothing in it is read.
    Other,
}

/// The plain value of a [`JsonDocument`].
pub enum JsonDocumentView {
    Object(Seq<(Seq<char>, JsonFieldView)>),
    Other,
}

impl View for JsonDocument {
    type V = JsonDocumentView;

    open spec fn view(&self) -> JsonDocumentView {
        match self {
            JsonDocument::Object(m) => JsonDocumentView::Object(
                m@.map_values(|t: JsonTopMember| (t.key@, t.value@)),
            ),
            JsonDocument::Other => JsonDocumentView::Other,
        }
    }
}

/// The value of the first member named `key` (`serde_json::Value::get`).
pub open spec fn lookup<V>(members: Seq<(Seq<char>, V)>, key: Seq<char>) -> Option<V>
    decreases members.len(),
{
    if members.len() == 0 {
        None
    } else if members[0].0 == key {
        Some(members[0].1)
    } else {
        lookup(members.drop_first(), key)
    }
}

/// `Value::as_bool`.
pub open spec fn as_bool(v: Option<JsonLeafView>) -> Option<bool> {
    match v {
        Some(JsonLeafView::Bool(b)) => Some(b),
        _ => None,
    }
}

/// `Value::as_u64`.
pub open spec fn as_u64(v: Option<JsonLeafView>) -> Option<u64> {
    match v {
        Some(JsonLeafView::UInt(n)) => Some(n),
        _ => None,
    }
}

/// `Value::as_str`.
pub open spec fn as_str(v: Option<JsonLeafView>) -> Option<Seq<char>> {
    match v {
        Some(JsonLeafView::Str(s)) => Some(s),
        _ => None,
    }
}

/// A member of the top-level object, when the document is an object.
pub open spec fn doc_get(doc: JsonDocumentView, key: Seq<char>) -> Option<JsonFieldView> {
    match doc {
        JsonDocumentView::Object(m) => lookup(m, key),
        JsonDocumentView::Other => None,
    }
}

impl JsonObject {
    /// The value of the member named `key`.
    pub fn get(&self, key: &str) -> (res: Option<&JsonLeaf>)
        ensures
            match res {
                Some(l) => lookup(self@, key@) == Some(l@),
                None => lookup(self@, key@) is None,
            },
    {
        let mut i: usize = 0;
        proof {
            assert(self@.subrange(0, self@.len() as int) == self@);
        }
        while i < self.members.len()
            invariant
                i <= self.members@.len(),
                lookup(self@, key@) == lookup(self@.subrange(i as int, self@.len() as int), key@),
            decreases self.members@.len() - i,
        {
            proof {
                assert(self@.subrange(i as int, self@.len() as int).drop_first() == self@.subrange(
                    i + 1,
                    self@.len() as int,
                ));
            }
            if str_eq(self.members[i].key.as_str(), key) {
                return Some(&self.members[i].value);
            }
            i += 1;
        }
        None
    }

    /// The value of the member named `key`, if it is a boolean.
    pub fn get_bool(&self, key: &str) -> (res: Option<bool>)
        ensures
            res == as_bool(lookup(self@, key@)),
    {
        match self.get(key) {
            Some(JsonLeaf::Bool(b)) => Some(*b),
            _ => None,
        }
    }

    /// The value of the member named `key`, if it is a `u64`.
    pub fn get_u64(&self, key: &str) -> (res: Option<u64>)
        ensures
            res == as_u64(lookup(self@, key@)),
    {
        match self.get(key) {
            Some(JsonLeaf::UInt(n)) => Some(*n),
            _ => None,
        }
    }

    /// The value of the member named `key`, if it is a string.
    pub fn get_str(&self, key: &str) -> (res: Option<&String>)
        ensures
            match res {
                Some(s) => as_str(lookup(self@, key@)) == Some(s@),
                None => as_str(lookup(self@, key@)) is None,
            },
    {
        match self.get(key) {
            Some(JsonLeaf::Str(s)) => Some(s),
            _ => None,
        }
    }
}

impl JsonDocument {
    /// The member of the top-level object named `key`.
    pub fn get(&self, key: &str) -> (res: Option<&JsonField>)
        ensures
            match res {
                Some(f) => doc_get(self@, key@) == Some(f@),
                None => doc_get(self@, key@) is None,
            },
    {
        match self {
            JsonDocument::Other => None,
            JsonDocument::Object(members) => {
                let ghost m = members@.map_values(|t: JsonTopMember| (t.key@, t.value@));
                let mut i: usize = 0;
                proof {
                    assert(m.subrange(0, m.len() as int) == m);
                }
                while i < members.len()
                    invariant
                        i <= members@.len(),
                        m == members@.map_values(|t: JsonTopMember| (t.key@, t.value@)),
                        self@ == JsonDocumentView::Object(m),
                        lookup(m, key@) == lookup(m.subrange(i as int, m.len() as int), key@),
                    decreases members@.len() - i,
                {
                    proof {
                        assert(m.subrange(i as int, m.len() as int).drop_first() == m.subrange(
                            i + 1,
                            m.len() as int,
                        ));
                    }
                    if str_eq(members[i].key.as_str(), key) {
                        return Some(&members[i].value);
                    }
                    i += 1;
                }
                None
            },
        }
    }
}

} // verus!

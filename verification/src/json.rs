//! JSON documents as trees, and the text they are read from and written to.
//!
//! Reading and writing JSON text is left to `serde_json`; everything that
//! looks inside a document works on [`Json`] and is verified.

use vstd::prelude::*;

verus! {

/// `serde_json::Number`, carried through unread.
#[verifier::external_type_specification]
#[verifier::external_body]
pub struct ExNumber(serde_json::Number);

/// `serde_json::Value`, which only the conversions below touch.
#[verifier::external_type_specification]
#[verifier::external_body]
pub struct ExValue(serde_json::Value);

/// `serde_json::Error`, mapped to `None` as soon as it is seen.
#[verifier::external_type_specification]
#[verifier::external_body]
pub struct ExError(serde_json::Error);

/// A JSON document.
///
/// An object keeps its members in the order given. Where a key occurs more
/// than once the last member of that name is the one the object holds.
#[derive(Debug, PartialEq)]
pub enum Json {
    Null,
    Bool(bool),
    Number(serde_json::Number),
    Text(String),
    Array(Vec<Json>),
    Object(Vec<(String, Json)>),
}

/// The mathematical value of a [`Json`].
pub enum JsonView {
    Null,
    Bool(bool),
    Number(serde_json::Number),
    Text(Seq<char>),
    Array(Seq<JsonView>),
    Object(Seq<(Seq<char>, JsonView)>),
}

/// The value of a document, by recursion over the tree.
pub open spec fn json_view(j: Json) -> JsonView
    decreases j,
{
    match j {
        Json::Null => JsonView::Null,
        Json::Bool(b) => JsonView::Bool(b),
        Json::Number(n) => JsonView::Number(n),
        Json::Text(s) => JsonView::Text(s@),
        Json::Array(items) => JsonView::Array(
            Seq::new(
                items@.len(),
                |i: int|
                    if 0 <= i < items@.len() {
                        json_view(items@[i])
                    } else {
                        JsonView::Null
                    },
            ),
        ),
        Json::Object(members) => JsonView::Object(
            Seq::new(
                members@.len(),
                |i: int|
                    if 0 <= i < members@.len() {
                        (members@[i].0@, json_view(members@[i].1))
                    } else {
                        (Seq::<char>::empty(), JsonView::Null)
                    },
            ),
        ),
    }
}

impl View for Json {
    type V = JsonView;

    open spec fn view(&self) -> JsonView {
        json_view(*self)
    }
}

/// The value that `members` hold under `key`: that of the last member so
/// named, if there is one.
pub open spec fn lookup(members: Seq<(Seq<char>, JsonView)>, key: Seq<char>) -> Option<JsonView>
    decreases members.len(),
{
    if members.len() == 0 {
        None
    } else if members.last().0 == key {
        Some(members.last().1)
    } else {
        lookup(members.drop_last(), key)
    }
}

impl JsonView {
    /// The value of the member `key` of an object; `None` for a document
    /// that is no object or has no such member.
    pub open spec fn field(self, key: Seq<char>) -> Option<JsonView> {
        match self {
            JsonView::Object(members) => lookup(members, key),
            _ => None,
        }
    }
}

/// The views of the items of an array, in order.
pub open spec fn items_view(items: Seq<Json>) -> Seq<JsonView> {
    Seq::new(items.len(), |i: int| items[i]@)
}

/// The views of the members of an object, in order.
pub open spec fn members_view(members: Seq<(String, Json)>) -> Seq<(Seq<char>, JsonView)> {
    Seq::new(members.len(), |i: int| (members[i].0@, members[i].1@))
}

/// The view of an array is the sequence of its items' views.
pub proof fn lemma_array_view(items: Vec<Json>)
    ensures
        Json::Array(items)@ == JsonView::Array(items_view(items@)),
{
    assert(Json::Array(items)@->Array_0 =~= items_view(items@));
}

/// The view of an object is the sequence of its members' views.
pub proof fn lemma_object_view(members: Vec<(String, Json)>)
    ensures
        Json::Object(members)@ == JsonView::Object(members_view(members@)),
{
    assert(Json::Object(members)@->Object_0 =~= members_view(members@));
}

/// A lookup only depends on the members before the last one named `key`.
proof fn lemma_lookup_prefix(members: Seq<(Seq<char>, JsonView)>, key: Seq<char>, n: int)
    requires
        0 <= n <= members.len(),
        forall|i: int| n <= i < members.len() ==> members[i].0 != key,
    ensures
        lookup(members, key) == lookup(members.take(n), key),
    decreases members.len() - n,
{
    if n == members.len() {
        assert(members.take(n) =~= members);
    } else {
        assert(members.drop_last().take(n) =~= members.take(n));
        lemma_lookup_prefix(members.drop_last(), key, n);
    }
}

/// A member of another name does not change what an object holds under
/// `key`, wherever among the members it stands.
pub proof fn lemma_lookup_skips_other_names(
    members: Seq<(Seq<char>, JsonView)>,
    at: int,
    name: Seq<char>,
    value: JsonView,
    key: Seq<char>,
)
    requires
        0 <= at <= members.len(),
        name != key,
    ensures
        lookup(members.insert(at, (name, value)), key) == lookup(members, key),
    decreases members.len(),
{
    let more = members.insert(at, (name, value));
    if at == members.len() {
        assert(more.drop_last() =~= members);
    } else {
        assert(more.drop_last() =~= members.drop_last().insert(at, (name, value)));
        lemma_lookup_skips_other_names(members.drop_last(), at, name, value, key);
    }
}

/// `serde_json::Number::clone` hands back the same number.
pub assume_specification[ <serde_json::Number as Clone>::clone ](n: &serde_json::Number) -> (r:
    serde_json::Number)
    ensures
        r == *n,
;

impl Clone for Json {
    fn clone(&self) -> (r: Json)
        ensures
            r@ == self@,
        decreases self,
    {
        match self {
            Json::Null => Json::Null,
            Json::Bool(b) => Json::Bool(*b),
            Json::Number(n) => Json::Number(n.clone()),
            Json::Text(s) => Json::Text(s.clone()),
            Json::Array(items) => {
                let mut out: Vec<Json> = Vec::new();
                let mut i: usize = 0;
                while i < items.len()
                    invariant
                        i <= items.len(),
                        out.len() == i,
                        *self == Json::Array(*items),
                        forall|k: int| 0 <= k < i ==> out@[k]@ == items@[k]@,
                    decreases items.len() - i,
                {
                    proof {
                        broadcast use vstd::std_specs::vec::group_vec_axioms;
                        assert(decreases_to!(*self => self->Array_0));
                    }
                    let item = items[i].clone();
                    out.push(item);
                    i += 1;
                }
                proof {
                    lemma_array_view(*items);
                    lemma_array_view(out);
                    assert(items_view(out@) =~= items_view(items@));
                }
                Json::Array(out)
            },
            Json::Object(members) => {
                let mut out: Vec<(String, Json)> = Vec::new();
                let mut i: usize = 0;
                while i < members.len()
                    invariant
                        i <= members.len(),
                        out.len() == i,
                        *self == Json::Object(*members),
                        forall|k: int|
                            0 <= k < i ==> out@[k].0@ == members@[k].0@ && out@[k].1@
                                == members@[k].1@,
                    decreases members.len() - i,
                {
                    proof {
                        broadcast use vstd::std_specs::vec::group_vec_axioms;
                        assert(decreases_to!(*self => self->Object_0));
                    }
                    let key = members[i].0.clone();
                    let value = members[i].1.clone();
                    out.push((key, value));
                    i += 1;
                }
                proof {
                    lemma_object_view(*members);
                    lemma_object_view(out);
                    assert(members_view(out@) =~= members_view(members@));
                }
                Json::Object(out)
            },
        }
    }
}

/// The document that a text denotes, as `serde_json::from_str` reads it;
/// `None` for a text that it refuses.
pub uninterp spec fn text_json(text: Seq<char>) -> Option<JsonView>;

/// The document that bytes denote, as `serde_json::from_slice` reads them;
/// `None` for bytes that it refuses.
pub uninterp spec fn bytes_json(data: Seq<u8>) -> Option<JsonView>;

/// What writing a document gives, as `serde_json::to_string` does it: the
/// compact text, or `None` for a document that it gives up on.
pub uninterp spec fn written_json(j: JsonView) -> Option<Seq<char>>;

/// Rewrites a `serde_json::Value` as a [`Json`], variant by variant. The
/// members of an object come in the order in which its map hands them out.
#[verifier::external_body]
fn json_from_value(v: &serde_json::Value) -> Json {
    match v {
        serde_json::Value::Null => Json::Null,
        serde_json::Value::Bool(b) => Json::Bool(*b),
        serde_json::Value::Number(n) => Json::Number(n.clone()),
        serde_json::Value::String(s) => Json::Text(s.clone()),
        serde_json::Value::Array(a) => Json::Array(a.iter().map(json_from_value).collect()),
        serde_json::Value::Object(m) => Json::Object(
            m.iter().map(|(k, x)| (k.clone(), json_from_value(x))).collect(),
        ),
    }
}

/// Rewrites a [`Json`] as a `serde_json::Value`, variant by variant. The
/// members of an object are collected into the map in order, so a later
/// member replaces an earlier one of the same name.
#[verifier::external_body]
fn value_from_json(j: &Json) -> serde_json::Value {
    match j {
        Json::Null => serde_json::Value::Null,
        Json::Bool(b) => serde_json::Value::Bool(*b),
        Json::Number(n) => serde_json::Value::Number(n.clone()),
        Json::Text(s) => serde_json::Value::String(s.clone()),
        Json::Array(a) => serde_json::Value::Array(a.iter().map(value_from_json).collect()),
        Json::Object(m) => serde_json::Value::Object(
            m.iter().map(|(k, x)| (k.clone(), value_from_json(x))).collect(),
        ),
    }
}

/// Calls `serde_json::from_str` for a `serde_json::Value` and rewrites the
/// value as a [`Json`]. Claimed: the outcome is a function of the text
/// alone, named [`text_json`].
#[verifier::external_body]
fn read_text(text: &str) -> (r: Result<Json, serde_json::Error>)
    ensures
        match r {
            Ok(j) => text_json(text@) == Some(j@),
            Err(_) => text_json(text@) is None,
        },
{
    serde_json::from_str::<serde_json::Value>(text).map(|v| json_from_value(&v))
}

/// Calls `serde_json::from_slice` for a `serde_json::Value` and rewrites the
/// value as a [`Json`]. Claimed: the outcome is a function of the bytes
/// alone, named [`bytes_json`].
#[verifier::external_body]
fn read_bytes(data: &[u8]) -> (r: Result<Json, serde_json::Error>)
    ensures
        match r {
            Ok(j) => bytes_json(data@) == Some(j@),
            Err(_) => bytes_json(data@) is None,
        },
{
    serde_json::from_slice::<serde_json::Value>(data).map(|v| json_from_value(&v))
}

/// Rewrites a [`Json`] as a `serde_json::Value` and calls
/// `serde_json::to_string` on it. Claimed: the outcome, a text or a
/// failure, is a function of the document alone, named [`written_json`].
/// That a text comes back is not claimed.
#[verifier::external_body]
fn write_text(j: &Json) -> (r: Result<String, serde_json::Error>)
    ensures
        match r {
            Ok(text) => written_json(j@) == Some(text@),
            Err(_) => written_json(j@) is None,
        },
{
    serde_json::to_string(&value_from_json(j))
}

impl Json {
    /// Reads a document from text.
    pub fn parse(text: &str) -> (r: Option<Json>)
        ensures
            match r {
                Some(j) => text_json(text@) == Some(j@),
                None => text_json(text@) is None,
            },
    {
        match read_text(text) {
            Ok(j) => Some(j),
            Err(_) => None,
        }
    }

    /// Reads a document from bytes.
    pub fn parse_bytes(data: &[u8]) -> (r: Option<Json>)
        ensures
            match r {
                Some(j) => bytes_json(data@) == Some(j@),
                None => bytes_json(data@) is None,
            },
    {
        match read_bytes(data) {
            Ok(j) => Some(j),
            Err(_) => None,
        }
    }

    /// Writes the document as compact text: the text that the writer
    /// gives for it, and `None` exactly where the writer gives up.
    pub fn print(&self) -> (r: Option<String>)
        ensures
            match r {
                Some(text) => written_json(self@) == Some(text@),
                None => written_json(self@) is None,
            },
    {
        match write_text(self) {
            Ok(text) => Some(text),
            Err(_) => None,
        }
    }

    /// The value of the member `key`, where the document is an object that
    /// has one.
    pub fn field(&self, key: &str) -> (r: Option<&Json>)
        ensures
            match r {
                Some(j) => self@.field(key@) == Some(j@),
                None => self@.field(key@) is None,
            },
    {
        match self {
            Json::Object(members) => {
                proof {
                    lemma_object_view(*members);
                }
                let ghost ms = members_view(members@);
                let wanted = key.to_owned();
                let mut i: usize = members.len();
                while i > 0
                    invariant
                        i <= members.len(),
                        wanted@ == key@,
                        ms == members_view(members@),
                        self@ == JsonView::Object(ms),
                        forall|k: int| i <= k < ms.len() ==> ms[k].0 != key@,
                    decreases i,
                {
                    i -= 1;
                    if members[i].0 == wanted {
                        proof {
                            lemma_lookup_prefix(ms, key@, i + 1);
                        }
                        return Some(&members[i].1);
                    }
                }
                proof {
                    lemma_lookup_prefix(ms, key@, 0);
                }
                None
            },
            _ => None,
        }
    }

    /// The text of a string document.
    pub fn as_text(&self) -> (r: Option<&String>)
        ensures
            match r {
                Some(s) => self@ == JsonView::Text(s@),
                None => !(self@ is Text),
            },
    {
        match self {
            Json::Text(s) => Some(s),
            _ => None,
        }
    }

    /// The items of an array document.
    pub fn as_array(&self) -> (r: Option<&Vec<Json>>)
        ensures
            match r {
                Some(items) => self@ == JsonView::Array(items_view(items@)),
                None => !(self@ is Array),
            },
    {
        match self {
            Json::Array(items) => {
                proof {
                    lemma_array_view(*items);
                }
                Some(items)
            },
            _ => None,
        }
    }
}

} // verus!

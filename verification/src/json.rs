//! JSON documents.
//!
//! Texts are parsed by `serde_json`. What it parsed is copied into [`Json`], a
//! tree of this crate's own that the schemas read; the copy is verified to
//! hold what `serde_json` reported, node by node.

use vstd::prelude::*;

verus! {

/// What a JSON document says: the mathematical value that [`Json`] stands for.
///
/// A number is known only as far as the schemas of this crate need it: by its
/// value where it is an integer of 64 signed bits, and as `None` where it is
/// any other number. The members of an object are a list: a key may occur
/// twice in it, and then the later member is the one that counts.
pub enum Doc {
    Null,
    Bool(bool),
    Number(Option<i64>),
    Text(Seq<char>),
    Array(Seq<Doc>),
    Object(Seq<(Seq<char>, Doc)>),
}

/// The value that `members` gives to `key`: that of the last member so named.
pub open spec fn lookup(members: Seq<(Seq<char>, Doc)>, key: Seq<char>) -> Option<Doc>
    decreases members.len(),
{
    if members.len() == 0 {
        None
    } else if members.last().0 == key {
        Some(members.last().1)
    } else {
        lookup(members.drop_last(), key)
    }
}

impl Doc {
    /// The member `key` of an object; `None` for an object without it and for
    /// every value that is no object.
    pub open spec fn member(self, key: Seq<char>) -> Option<Doc> {
        match self {
            Doc::Object(members) => lookup(members, key),
            _ => None,
        }
    }
}

/// A JSON document in memory.
#[derive(Debug, PartialEq)]
pub enum Json {
    Null,
    Bool(bool),
    /// `Some` for an integer of 64 signed bits, `None` for any other number.
    Number(Option<i64>),
    Text(String),
    Array(Vec<Json>),
    /// The members. Where a key occurs twice, the later member is the one
    /// that counts.
    Object(Vec<(String, Json)>),
}

impl Json {
    /// The document that the tree holds.
    pub open spec fn doc(&self) -> Doc
        decreases self,
    {
        match self {
            Json::Null => Doc::Null,
            Json::Bool(b) => Doc::Bool(*b),
            Json::Number(n) => Doc::Number(*n),
            Json::Text(s) => Doc::Text(s@),
            Json::Array(items) => Doc::Array(
                Seq::new(
                    items@.len(),
                    |i: int|
                        if 0 <= i < items@.len() {
                            items@[i].doc()
                        } else {
                            Doc::Null
                        },
                ),
            ),
            Json::Object(members) => Doc::Object(
                Seq::new(
                    members@.len(),
                    |i: int|
                        if 0 <= i < members@.len() {
                            (members@[i].0@, members@[i].1.doc())
                        } else {
                            (Seq::empty(), Doc::Null)
                        },
                ),
            ),
        }
    }
}

impl DeepView for Json {
    type V = Doc;

    open spec fn deep_view(&self) -> Doc {
        self.doc()
    }
}

/// `serde_json::Value`, the tree that `serde_json` parses a text into.
#[verifier::external_type_specification]
#[verifier::external_body]
pub struct ExValue(serde_json::Value);

/// What a `serde_json::Value` holds.
pub uninterp spec fn content(value: serde_json::Value) -> Doc;

/// What `serde_json` makes of a text: the document that it parses the text
/// into, or `None` where it reports an error.
pub uninterp spec fn parsed(text: Seq<char>) -> Option<Doc>;

/// One node of a `serde_json::Value`, with its children still in that tree.
enum Node<'a> {
    Null,
    Bool(bool),
    Number(Option<i64>),
    Text(&'a str),
    Array(&'a Vec<serde_json::Value>),
    Object(Vec<(&'a String, &'a serde_json::Value)>),
}

impl<'a> Node<'a> {
    /// The document that the node and its children hold.
    closed spec fn doc(self) -> Doc {
        match self {
            Node::Null => Doc::Null,
            Node::Bool(b) => Doc::Bool(b),
            Node::Number(n) => Doc::Number(n),
            Node::Text(s) => Doc::Text(s@),
            Node::Array(items) => Doc::Array(Seq::new(items@.len(), |i: int| content(items@[i]))),
            Node::Object(members) => Doc::Object(
                Seq::new(members@.len(), |i: int| (members@[i].0@, content(*members@[i].1))),
            ),
        }
    }
}

/// `serde_json::from_str`, asked for a `serde_json::Value`. The contract gives
/// the outcome its name: a value that holds `parsed` of the text, or an error
/// exactly where `parsed` is `None`.
#[verifier::external_body]
fn parse_value(text: &str) -> (r: Result<serde_json::Value, serde_json::Error>)
    ensures
        match r {
            Ok(value) => parsed(text@) == Some(content(value)),
            Err(_) => parsed(text@) is None,
        },
{
    serde_json::from_str::<serde_json::Value>(text)
}

/// Opens one `serde_json::Value`: tells its six variants apart and hands out
/// what each carries. A number is asked for its value through
/// `serde_json::Number::as_i64`, which answers `None` unless the number is an
/// integer of 64 signed bits; an object's members come in the order of
/// `serde_json::Map::iter`. The contract says that the node holds what the
/// value holds.
#[verifier::external_body]
fn open_value(value: &serde_json::Value) -> (node: Node<'_>)
    ensures
        node.doc() == content(*value),
{
    match value {
        serde_json::Value::Null => Node::Null,
        serde_json::Value::Bool(b) => Node::Bool(*b),
        serde_json::Value::Number(n) => Node::Number(n.as_i64()),
        serde_json::Value::String(s) => Node::Text(s),
        serde_json::Value::Array(items) => Node::Array(items),
        serde_json::Value::Object(members) => Node::Object(members.iter().collect()),
    }
}

/// Copies a `serde_json::Value` into a [`Json`] that holds the same document.
fn lift(value: &serde_json::Value) -> (json: Json)
    ensures
        json.deep_view() == content(*value),
    decreases content(*value),
{
    let node = open_value(value);
    match node {
        Node::Null => Json::Null,
        Node::Bool(b) => Json::Bool(b),
        Node::Number(n) => Json::Number(n),
        Node::Text(s) => Json::Text(s.to_owned()),
        Node::Array(items) => {
            let mut copies: Vec<Json> = Vec::new();
            let mut i: usize = 0;
            while i < items.len()
                invariant
                    i <= items@.len(),
                    copies@.len() == i,
                    content(*value) == Doc::Array(
                        Seq::new(items@.len(), |k: int| content(items@[k])),
                    ),
                    forall|k: int| 0 <= k < i ==> (#[trigger] copies@[k]).deep_view() == content(items@[k]),
                decreases items@.len() - i,
            {
                proof {
                    let children = content(*value)->Array_0;
                    assert(children[i as int] == content(items@[i as int]));
                    assert(decreases_to!(content(*value) => children[i as int]));
                }
                let copy = lift(&items[i]);
                copies.push(copy);
                i += 1;
            }
            let json = Json::Array(copies);
            assert(json.deep_view()->Array_0 =~= content(*value)->Array_0);
            json
        },
        Node::Object(members) => {
            let mut copies: Vec<(String, Json)> = Vec::new();
            let mut i: usize = 0;
            while i < members.len()
                invariant
                    i <= members@.len(),
                    copies@.len() == i,
                    content(*value) == Doc::Object(
                        Seq::new(
                            members@.len(),
                            |k: int| (members@[k].0@, content(*members@[k].1)),
                        ),
                    ),
                    forall|k: int|
                        0 <= k < i ==> (#[trigger] copies@[k]).0@ == members@[k].0@
                            && copies@[k].1.deep_view() == content(*members@[k].1),
                decreases members@.len() - i,
            {
                proof {
                    let children = content(*value)->Object_0;
                    assert(children[i as int].1 == content(*members@[i as int].1));
                    assert(decreases_to!(content(*value) => children[i as int].1));
                }
                let key = members[i].0.clone();
                let copy = lift(members[i].1);
                copies.push((key, copy));
                i += 1;
            }
            let json = Json::Object(copies);
            assert(json.deep_view()->Object_0 =~= content(*value)->Object_0);
            json
        },
    }
}

impl Json {
    /// Parses a text with `serde_json` and copies the outcome.
    ///
    /// Succeeds exactly on the texts that `serde_json` parses, with the
    /// document that it parsed; else the error is `serde_json`'s own. The
    /// members of an object come in the order in which `serde_json` walks
    /// them.
    pub fn parse(text: &str) -> (r: Result<Json, serde_json::Error>)
        ensures
            match r {
                Ok(json) => parsed(text@) == Some(json.deep_view()),
                Err(_) => parsed(text@) is None,
            },
    {
        match parse_value(text) {
            Ok(value) => Ok(lift(&value)),
            Err(cause) => Err(cause),
        }
    }

    /// The member `key` of an object: the last one of that name. `None` for
    /// an object without it and for every value that is no object.
    pub fn get(&self, key: &str) -> (r: Option<&Json>)
        ensures
            match r {
                Some(found) => self.deep_view().member(key@) == Some(found.deep_view()),
                None => self.deep_view().member(key@) is None,
            },
    {
        match self {
            Json::Object(members) => {
                let ghost all = self.doc()->Object_0;
                assert(all.take(members@.len() as int) =~= all);
                let wanted: String = key.to_owned();
                let mut i: usize = members.len();
                while i > 0
                    invariant
                        i <= members@.len(),
                        all.len() == members@.len(),
                        self.doc() == Doc::Object(all),
                        forall|k: int|
                            0 <= k < all.len() ==> #[trigger] all[k] == (
                                members@[k].0@,
                                members@[k].1.doc(),
                            ),
                        lookup(all, key@) == lookup(all.take(i as int), key@),
                        wanted@ == key@,
                    decreases i,
                {
                    let ghost upto = all.take(i as int);
                    assert(upto.last() == all[i - 1]);
                    assert(upto.drop_last() =~= all.take(i - 1));
                    i -= 1;
                    if members[i].0 == wanted {
                        assert(lookup(upto, key@) == Some(members@[i as int].1.doc()));
                        return Some(&members[i].1);
                    }
                }
                None
            },
            _ => None,
        }
    }
}

} // verus!

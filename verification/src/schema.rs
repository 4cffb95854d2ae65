//! The pieces that every schema of this crate is made of: reading one member
//! of an object as a text, an integer, an array or an object, and saying what
//! is wrong where it is none.

use vstd::prelude::*;
use crate::error::{DecodeError, Failure, Mismatch};
use crate::json::{lookup, parsed, Doc, Json};
use crate::table::{table_of, Table};

verus! {

/// Whether a decoder's result is what the schema says of the document: the
/// record whose model the schema gives, or the mismatch that it names.
pub open spec fn agrees<T: DeepView>(
    r: Result<T, Mismatch>,
    expected: Result<T::V, Mismatch>,
) -> bool {
    match r {
        Ok(value) => expected == Ok::<T::V, Mismatch>(value.deep_view()),
        Err(mismatch) => expected == Err::<T::V, Mismatch>(mismatch),
    }
}

/// The integer `n` as the schemas take it: itself where it has 32 signed
/// bits, else no integer of theirs.
pub open spec fn small(n: i64) -> Result<i32, Mismatch> {
    if i32::MIN <= n <= i32::MAX {
        Ok(n as i32)
    } else {
        Err(Mismatch::BadNumber)
    }
}

impl Doc {
    /// The required member `key`, a text.
    pub open spec fn text_at(self, key: Seq<char>) -> Result<Seq<char>, Mismatch> {
        match self.member(key) {
            None => Err(Mismatch::MissingField),
            Some(Doc::Text(text)) => Ok(text),
            Some(_) => Err(Mismatch::WrongType),
        }
    }

    /// The member `key`, a text where there is one: a member that is absent
    /// or `null` counts as none.
    pub open spec fn optional_text_at(self, key: Seq<char>) -> Result<Option<Seq<char>>, Mismatch> {
        match self.member(key) {
            None => Ok(None),
            Some(Doc::Null) => Ok(None),
            Some(Doc::Text(text)) => Ok(Some(text)),
            Some(_) => Err(Mismatch::WrongType),
        }
    }

    /// The required member `key`, an integer of 32 signed bits.
    pub open spec fn int_at(self, key: Seq<char>) -> Result<i32, Mismatch> {
        match self.member(key) {
            None => Err(Mismatch::MissingField),
            Some(Doc::Number(Some(n))) => small(n),
            Some(Doc::Number(None)) => Err(Mismatch::BadNumber),
            Some(_) => Err(Mismatch::WrongType),
        }
    }

    /// The items of the required member `key`, an array.
    pub open spec fn array_at(self, key: Seq<char>) -> Result<Seq<Doc>, Mismatch> {
        match self.member(key) {
            None => Err(Mismatch::MissingField),
            Some(Doc::Array(items)) => Ok(items),
            Some(_) => Err(Mismatch::WrongType),
        }
    }

    /// The required member `key`, whatever it holds.
    pub open spec fn at(self, key: Seq<char>) -> Result<Doc, Mismatch> {
        match self.member(key) {
            None => Err(Mismatch::MissingField),
            Some(found) => Ok(found),
        }
    }

    /// The member `key` where it says anything: a member that is absent or
    /// `null` counts as none.
    pub open spec fn optional_at(self, key: Seq<char>) -> Option<Doc> {
        match self.member(key) {
            None => None,
            Some(Doc::Null) => None,
            Some(found) => Some(found),
        }
    }

    /// The items of an array.
    pub open spec fn items(self) -> Result<Seq<Doc>, Mismatch> {
        match self {
            Doc::Array(items) => Ok(items),
            _ => Err(Mismatch::WrongType),
        }
    }

    /// The members of an object.
    pub open spec fn members(self) -> Result<Seq<(Seq<char>, Doc)>, Mismatch> {
        match self {
            Doc::Object(members) => Ok(members),
            _ => Err(Mismatch::WrongType),
        }
    }
}

impl Json {
    /// Whether the document is an object.
    pub fn is_object(&self) -> (r: bool)
        ensures
            r == (self.deep_view() is Object),
    {
        match self {
            Json::Object(_) => true,
            _ => false,
        }
    }

    /// The required member `key`, a text.
    pub fn text_at(&self, key: &str) -> (r: Result<String, Mismatch>)
        ensures
            agrees(r, self.deep_view().text_at(key@)),
    {
        match self.get(key) {
            None => Err(Mismatch::MissingField),
            Some(Json::Text(text)) => Ok(text.clone()),
            Some(_) => Err(Mismatch::WrongType),
        }
    }

    /// The member `key`, a text where there is one.
    pub fn optional_text_at(&self, key: &str) -> (r: Result<Option<String>, Mismatch>)
        ensures
            agrees(r, self.deep_view().optional_text_at(key@)),
    {
        match self.get(key) {
            None => Ok(None),
            Some(Json::Null) => Ok(None),
            Some(Json::Text(text)) => Ok(Some(text.clone())),
            Some(_) => Err(Mismatch::WrongType),
        }
    }

    /// The required member `key`, an integer of 32 signed bits.
    pub fn int_at(&self, key: &str) -> (r: Result<i32, Mismatch>)
        ensures
            agrees(r, self.deep_view().int_at(key@)),
    {
        match self.get(key) {
            None => Err(Mismatch::MissingField),
            Some(Json::Number(Some(n))) => {
                if -2147483648 <= *n && *n <= 2147483647 {
                    Ok(*n as i32)
                } else {
                    Err(Mismatch::BadNumber)
                }
            },
            Some(Json::Number(None)) => Err(Mismatch::BadNumber),
            Some(_) => Err(Mismatch::WrongType),
        }
    }

    /// The items of the required member `key`, an array.
    pub fn array_at(&self, key: &str) -> (r: Result<&Vec<Json>, Mismatch>)
        ensures
            agrees(r, self.deep_view().array_at(key@)),
    {
        match self.get(key) {
            None => Err(Mismatch::MissingField),
            Some(found) => found.items(),
        }
    }

    /// The required member `key`, whatever it holds.
    pub fn at(&self, key: &str) -> (r: Result<&Json, Mismatch>)
        ensures
            agrees(r, self.deep_view().at(key@)),
    {
        match self.get(key) {
            None => Err(Mismatch::MissingField),
            Some(found) => Ok(found),
        }
    }

    /// The member `key` where it says anything.
    pub fn optional_at(&self, key: &str) -> (r: Option<&Json>)
        ensures
            r.deep_view() == self.deep_view().optional_at(key@),
    {
        match self.get(key) {
            None => None,
            Some(Json::Null) => None,
            Some(found) => Some(found),
        }
    }

    /// The items of an array.
    pub fn items(&self) -> (r: Result<&Vec<Json>, Mismatch>)
        ensures
            agrees(r, self.deep_view().items()),
    {
        match self {
            Json::Array(items) => {
                assert(items.deep_view() =~= self.doc()->Array_0);
                Ok(items)
            },
            _ => Err(Mismatch::WrongType),
        }
    }

    /// The members of an object.
    pub fn members(&self) -> (r: Result<&Vec<(String, Json)>, Mismatch>)
        ensures
            agrees(r, self.deep_view().members()),
    {
        match self {
            Json::Object(members) => {
                assert(members.deep_view() =~= self.doc()->Object_0);
                Ok(members)
            },
            _ => Err(Mismatch::WrongType),
        }
    }
}

/// A record that has a schema: a rule that says which documents stand for
/// such a record, and for which.
pub trait Decode: DeepView + Sized {
    /// What the schema makes of a document: the record, as its model, or the
    /// first thing that is wrong with the document.
    spec fn schema(doc: Doc) -> Result<Self::V, Mismatch>;

    /// Decodes a document by the schema.
    fn from_json(json: &Json) -> (r: Result<Self, Mismatch>)
        ensures
            agrees(r, Self::schema(json.deep_view())),
    ;
}

/// What the schema of `T` makes of a member that may be missing: no record
/// where there is no document, else what the schema makes of the document.
pub open spec fn optional_of<T: Decode>(found: Option<Doc>) -> Result<Option<T::V>, Mismatch> {
    match found {
        None => Ok(None),
        Some(doc) => match T::schema(doc) {
            Err(mismatch) => Err(mismatch),
            Ok(record) => Ok(Some(record)),
        },
    }
}

/// As many units as a list has items: what is kept of an array whose items
/// the schemas do not read.
pub open spec fn units_of(items: Seq<Doc>) -> Seq<()> {
    Seq::new(items.len(), |i: int| ())
}

/// What the schema of `T` makes of a list of documents: the records in the
/// order of the documents, or what is wrong with the first document that is
/// none.
pub open spec fn list_of<T: Decode>(items: Seq<Doc>) -> Result<Seq<T::V>, Mismatch>
    decreases items.len(),
{
    if items.len() == 0 {
        Ok(Seq::empty())
    } else {
        match list_of::<T>(items.drop_last()) {
            Err(mismatch) => Err(mismatch),
            Ok(front) => match T::schema(items.last()) {
                Err(mismatch) => Err(mismatch),
                Ok(record) => Ok(front.push(record)),
            },
        }
    }
}

/// What the schema of `T` makes of the members of an object: each name with
/// its record, in the order of the members, or what is wrong with the first
/// member that holds none.
pub open spec fn pairs_of<T: Decode>(members: Seq<(Seq<char>, Doc)>) -> Result<
    Seq<(Seq<char>, T::V)>,
    Mismatch,
>
    decreases members.len(),
{
    if members.len() == 0 {
        Ok(Seq::empty())
    } else {
        match pairs_of::<T>(members.drop_last()) {
            Err(mismatch) => Err(mismatch),
            Ok(front) => match T::schema(members.last().1) {
                Err(mismatch) => Err(mismatch),
                Ok(record) => Ok(front.push((members.last().0, record))),
            },
        }
    }
}

/// A list is decoded exactly if each of its documents is, and then holds one
/// record for each document, in the same order.
pub proof fn list_keeps_order<T: Decode>(items: Seq<Doc>)
    ensures
        list_of::<T>(items) is Ok <==> forall|i: int|
            0 <= i < items.len() ==> T::schema(#[trigger] items[i]) is Ok,
        list_of::<T>(items) is Ok ==> list_of::<T>(items)->Ok_0.len() == items.len(),
        list_of::<T>(items) is Ok ==> forall|i: int|
            0 <= i < items.len() ==> T::schema(items[i]) == Ok::<T::V, Mismatch>(
                #[trigger] list_of::<T>(items)->Ok_0[i],
            ),
    decreases items.len(),
{
    if items.len() > 0 {
        let front = items.drop_last();
        list_keeps_order::<T>(front);
        if forall|i: int| 0 <= i < items.len() ==> T::schema(#[trigger] items[i]) is Ok {
            assert forall|i: int| 0 <= i < front.len() implies T::schema(
                #[trigger] front[i],
            ) is Ok by {
                assert(front[i] == items[i]);
            }
            assert(T::schema(items[items.len() - 1]) is Ok);
        }
        if list_of::<T>(items) is Ok {
            assert forall|i: int| 0 <= i < items.len() implies T::schema(
                #[trigger] items[i],
            ) is Ok by {
                if i < front.len() {
                    assert(front[i] == items[i]);
                }
            }
            let all = list_of::<T>(items)->Ok_0;
            assert forall|i: int| 0 <= i < items.len() implies T::schema(items[i]) == Ok::<
                T::V,
                Mismatch,
            >(#[trigger] all[i]) by {
                if i < front.len() {
                    assert(front[i] == items[i]);
                    assert(all[i] == list_of::<T>(front)->Ok_0[i]);
                }
            }
        }
    }
}

/// The members of an object are decoded exactly if the value of each is, and
/// then there is one pair for each member, in the same order and under the
/// same name.
pub proof fn pairs_keep_order<T: Decode>(members: Seq<(Seq<char>, Doc)>)
    ensures
        pairs_of::<T>(members) is Ok <==> forall|i: int|
            0 <= i < members.len() ==> T::schema((#[trigger] members[i]).1) is Ok,
        pairs_of::<T>(members) is Ok ==> pairs_of::<T>(members)->Ok_0.len() == members.len(),
        pairs_of::<T>(members) is Ok ==> forall|i: int|
            0 <= i < members.len() ==> {
                let pair = #[trigger] pairs_of::<T>(members)->Ok_0[i];
                pair.0 == members[i].0 && T::schema(members[i].1) == Ok::<T::V, Mismatch>(pair.1)
            },
    decreases members.len(),
{
    if members.len() > 0 {
        let front = members.drop_last();
        pairs_keep_order::<T>(front);
        if forall|i: int| 0 <= i < members.len() ==> T::schema((#[trigger] members[i]).1) is Ok {
            assert forall|i: int| 0 <= i < front.len() implies T::schema(
                (#[trigger] front[i]).1,
            ) is Ok by {
                assert(front[i] == members[i]);
            }
            assert(T::schema(members[members.len() - 1].1) is Ok);
        }
        if pairs_of::<T>(members) is Ok {
            assert forall|i: int| 0 <= i < members.len() implies T::schema(
                (#[trigger] members[i]).1,
            ) is Ok by {
                if i < front.len() {
                    assert(front[i] == members[i]);
                }
            }
            let all = pairs_of::<T>(members)->Ok_0;
            assert forall|i: int| 0 <= i < members.len() implies {
                let pair = #[trigger] all[i];
                pair.0 == members[i].0 && T::schema(members[i].1) == Ok::<T::V, Mismatch>(pair.1)
            } by {
                if i < front.len() {
                    assert(front[i] == members[i]);
                    assert(all[i] == pairs_of::<T>(front)->Ok_0[i]);
                }
            }
        }
    }
}

/// What is wrong with the beginning of a list is wrong with the list.
proof fn lemma_list_fails<T: Decode>(items: Seq<Doc>, n: int)
    requires
        0 <= n <= items.len(),
        list_of::<T>(items.take(n)) is Err,
    ensures
        list_of::<T>(items) == list_of::<T>(items.take(n)),
    decreases items.len(),
{
    if n < items.len() {
        let front = items.drop_last();
        assert(front.take(n) =~= items.take(n));
        lemma_list_fails::<T>(front, n);
    } else {
        assert(items.take(n) =~= items);
    }
}

/// What is wrong with the first members of an object is wrong with all.
proof fn lemma_pairs_fail<T: Decode>(members: Seq<(Seq<char>, Doc)>, n: int)
    requires
        0 <= n <= members.len(),
        pairs_of::<T>(members.take(n)) is Err,
    ensures
        pairs_of::<T>(members) == pairs_of::<T>(members.take(n)),
    decreases members.len(),
{
    if n < members.len() {
        let front = members.drop_last();
        assert(front.take(n) =~= members.take(n));
        lemma_pairs_fail::<T>(front, n);
    } else {
        assert(members.take(n) =~= members);
    }
}

/// Decodes a member that may be missing by the schema of `T`.
pub fn optional<T: Decode>(found: Option<&Json>) -> (r: Result<Option<T>, Mismatch>)
    ensures
        agrees(r, optional_of::<T>(found.deep_view())),
{
    match found {
        None => Ok(None),
        Some(json) => match T::from_json(json) {
            Err(mismatch) => Err(mismatch),
            Ok(record) => Ok(Some(record)),
        },
    }
}

/// Keeps of an array the number of its items, one unit for each.
pub fn units(items: &Vec<Json>) -> (r: Vec<()>)
    ensures
        r.deep_view() == units_of(items.deep_view()),
{
    let mut kept: Vec<()> = Vec::new();
    let mut i: usize = 0;
    while i < items.len()
        invariant
            i <= items@.len(),
            kept@.len() == i,
        decreases items@.len() - i,
    {
        kept.push(());
        i += 1;
    }
    assert(kept.deep_view() =~= units_of(items.deep_view()));
    kept
}

/// Decodes each document of a list by the schema of `T`.
pub fn list<T: Decode>(items: &Vec<Json>) -> (r: Result<Vec<T>, Mismatch>)
    ensures
        agrees(r, list_of::<T>(items.deep_view())),
{
    let ghost docs = items.deep_view();
    let mut records: Vec<T> = Vec::new();
    let mut i: usize = 0;
    assert(docs.take(0) =~= Seq::<Doc>::empty());
    assert(records.deep_view() =~= Seq::<T::V>::empty());
    while i < items.len()
        invariant
            i <= items@.len(),
            docs == items.deep_view(),
            list_of::<T>(docs.take(i as int)) == Ok::<Seq<T::V>, Mismatch>(records.deep_view()),
        decreases items@.len() - i,
    {
        let ghost upto = docs.take(i + 1);
        let ghost before = records.deep_view();
        assert(upto.drop_last() =~= docs.take(i as int));
        assert(upto.last() == items@[i as int].deep_view());
        match T::from_json(&items[i]) {
            Err(mismatch) => {
                proof {
                    lemma_list_fails::<T>(docs, i + 1);
                }
                return Err(mismatch);
            },
            Ok(record) => {
                let ghost model = record.deep_view();
                records.push(record);
                assert(records.deep_view() =~= before.push(model));
            },
        }
        i += 1;
    }
    assert(docs.take(i as int) =~= docs);
    Ok(records)
}

/// Decodes the value of each member of an object by the schema of `T`, and
/// keeps it under the member's name.
pub fn table<T: Decode>(members: &Vec<(String, Json)>) -> (r: Result<Table<T>, Mismatch>)
    ensures
        agrees(r, pairs_of::<T>(members.deep_view())),
{
    let ghost docs = members.deep_view();
    let mut table: Table<T> = Table::new();
    let mut i: usize = 0;
    assert(docs.take(0) =~= Seq::<(Seq<char>, Doc)>::empty());
    assert(table.entries.deep_view() =~= Seq::<(Seq<char>, T::V)>::empty());
    while i < members.len()
        invariant
            i <= members@.len(),
            docs == members.deep_view(),
            pairs_of::<T>(docs.take(i as int)) == Ok::<Seq<(Seq<char>, T::V)>, Mismatch>(
                table.entries.deep_view(),
            ),
        decreases members@.len() - i,
    {
        let ghost upto = docs.take(i + 1);
        assert(upto.drop_last() =~= docs.take(i as int));
        assert(upto.last() == (members@[i as int].0@, members@[i as int].1.deep_view()));
        match T::from_json(&members[i].1) {
            Err(mismatch) => {
                proof {
                    lemma_pairs_fail::<T>(docs, i + 1);
                }
                return Err(mismatch);
            },
            Ok(record) => {
                table.insert(members[i].0.clone(), record);
            },
        }
        i += 1;
    }
    assert(docs.take(i as int) =~= docs);
    Ok(table)
}

impl<T: Decode> Decode for Table<T> {
    /// An object, the value of each member of which is a `T`: one entry for
    /// each member, in the order of the members.
    open spec fn schema(doc: Doc) -> Result<Seq<(Seq<char>, T::V)>, Mismatch> {
        match doc.members() {
            Err(mismatch) => Err(mismatch),
            Ok(members) => pairs_of::<T>(members),
        }
    }

    fn from_json(json: &Json) -> (r: Result<Table<T>, Mismatch>) {
        table::<T>(json.members()?)
    }
}

impl Decode for Option<String> {
    /// A text, or `null` for none.
    open spec fn schema(doc: Doc) -> Result<Option<Seq<char>>, Mismatch> {
        match doc {
            Doc::Null => Ok(None),
            Doc::Text(text) => Ok(Some(text)),
            _ => Err(Mismatch::WrongType),
        }
    }

    fn from_json(json: &Json) -> (r: Result<Option<String>, Mismatch>) {
        match json {
            Json::Null => Ok(None),
            Json::Text(text) => Ok(Some(text.clone())),
            _ => Err(Mismatch::WrongType),
        }
    }
}

/// The pairs decoded from the members of an object give each name the record
/// of the member that stands for the name in the object.
proof fn lemma_pairs_follow_members<T: Decode>(members: Seq<(Seq<char>, Doc)>, key: Seq<char>)
    requires
        pairs_of::<T>(members) is Ok,
    ensures
        match lookup(members, key) {
            None => !table_of(pairs_of::<T>(members)->Ok_0).contains_key(key),
            Some(found) => table_of(pairs_of::<T>(members)->Ok_0).contains_key(key) && T::schema(
                found,
            ) == Ok::<T::V, Mismatch>(table_of(pairs_of::<T>(members)->Ok_0)[key]),
        },
    decreases members.len(),
{
    if members.len() > 0 {
        let front = members.drop_last();
        lemma_pairs_follow_members::<T>(front, key);
        let pairs = pairs_of::<T>(members)->Ok_0;
        let record = T::schema(members.last().1)->Ok_0;
        assert(pairs.drop_last() =~= pairs_of::<T>(front)->Ok_0);
        assert(pairs.last() == (members.last().0, record));
    }
}

/// A table answers for a name as its document does: its mapping has a record
/// for the name exactly if the object has a member of that name, and the
/// record is the one that the schema of `T` gives for that member.
pub proof fn table_follows_document<T: Decode>(doc: Doc, key: Seq<char>)
    requires
        Table::<T>::schema(doc) is Ok,
    ensures
        match doc.member(key) {
            None => !table_of(Table::<T>::schema(doc)->Ok_0).contains_key(key),
            Some(found) => table_of(Table::<T>::schema(doc)->Ok_0).contains_key(key) && T::schema(
                found,
            ) == Ok::<T::V, Mismatch>(table_of(Table::<T>::schema(doc)->Ok_0)[key]),
        },
{
    lemma_pairs_follow_members::<T>(doc->Object_0, key);
}

/// What decoding a text as a `T` owes: where `serde_json` cannot parse the
/// text, a decode failure with its syntax error; where the document that it
/// parses does not fit the schema, a decode failure with the mismatch; else the
/// record that the schema gives for the document.
pub open spec fn decoded<T: Decode>(text: Seq<char>, r: Result<T, Failure>) -> bool {
    match parsed(text) {
        None => r is Err && r->Err_0 is Decode && r->Err_0->Decode_0 is Syntax,
        Some(doc) => match T::schema(doc) {
            Err(mismatch) => r == Err::<T, Failure>(Failure::Decode(DecodeError::Schema(mismatch))),
            Ok(record) => r is Ok && r->Ok_0.deep_view() == record,
        },
    }
}

/// Decodes what a parse came to by the schema of `T`.
///
/// Where the parse failed, the failure is a decode failure that carries the
/// parser's own error. Where the document does not fit the schema, it is a
/// decode failure with the mismatch. Else the record is the one that the
/// schema gives for the document.
pub fn from_parsed<T: Decode>(outcome: Result<Json, serde_json::Error>) -> (r: Result<T, Failure>)
    ensures
        match outcome {
            Err(cause) => r == Err::<T, Failure>(Failure::Decode(DecodeError::Syntax(cause))),
            Ok(json) => match T::schema(json.deep_view()) {
                Err(mismatch) => r == Err::<T, Failure>(
                    Failure::Decode(DecodeError::Schema(mismatch)),
                ),
                Ok(record) => r is Ok && r->Ok_0.deep_view() == record,
            },
        },
{
    match outcome {
        Err(cause) => Err(Failure::from(cause)),
        Ok(json) => match T::from_json(&json) {
            Err(mismatch) => Err(Failure::from(mismatch)),
            Ok(record) => Ok(record),
        },
    }
}

/// Parses a text and decodes the document by the schema of `T`.
pub fn decode<T: Decode>(text: &str) -> (r: Result<T, Failure>)
    ensures
        decoded(text@, r),
{
    from_parsed::<T>(Json::parse(text))
}

/// Decoding fails exactly on the texts that are no JSON and on the documents
/// that do not fit the schema, and every failure of it is a decode failure:
/// no record is made up for such a text.
pub proof fn failure_is_decode_failure<T: Decode>(text: Seq<char>, r: Result<T, Failure>)
    requires
        decoded(text, r),
    ensures
        r is Err <==> parsed(text) is None || T::schema(parsed(text)->Some_0) is Err,
        r is Err ==> r->Err_0 is Decode,
{
}

/// Two results of decoding one text are the same: both fail, or both hold
/// the same record.
pub proof fn decoding_is_deterministic<T: Decode>(
    text: Seq<char>,
    first: Result<T, Failure>,
    second: Result<T, Failure>,
)
    requires
        decoded(text, first),
        decoded(text, second),
    ensures
        first is Ok <==> second is Ok,
        first is Ok ==> first->Ok_0.deep_view() == second->Ok_0.deep_view(),
{
}

} // verus!

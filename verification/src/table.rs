//! A mapping from names to records, kept as a list of entries.
//!
//! The names are texts. The hash maps of the standard library promise what
//! they hold only for keys whose hashing is known to the verifier, which
//! that of a text is not; a list of entries promises it for every key.

use vstd::prelude::*;

verus! {

/// The mapping that a list of pairs stands for: each key with the value of
/// the last pair that names it.
pub open spec fn table_of<T>(pairs: Seq<(Seq<char>, T)>) -> Map<Seq<char>, T>
    decreases pairs.len(),
{
    if pairs.len() == 0 {
        Map::empty()
    } else {
        table_of(pairs.drop_last()).insert(pairs.last().0, pairs.last().1)
    }
}

/// A mapping from names to values, kept as a list of entries. Where a name
/// occurs twice, the later entry is the one that counts; `==` compares the
/// lists, entry by entry.
#[derive(Clone, Debug, PartialEq)]
pub struct Table<V> {
    /// The entries, in the order in which they were added.
    pub entries: Vec<(String, V)>,
}

/// A table is known by its entries: the model keeps their order, so that two
/// tables with the same model are equal entry by entry.
impl<V: DeepView> DeepView for Table<V> {
    type V = Seq<(Seq<char>, V::V)>;

    open spec fn deep_view(&self) -> Seq<(Seq<char>, V::V)> {
        self.entries.deep_view()
    }
}

impl<V: DeepView> Table<V> {
    /// The mapping that the table stands for.
    pub open spec fn mapping(&self) -> Map<Seq<char>, V::V> {
        table_of(self.deep_view())
    }

    /// The table without entries.
    pub fn new() -> (table: Self)
        ensures
            table.deep_view() == Seq::<(Seq<char>, V::V)>::empty(),
            table.mapping() == Map::<Seq<char>, V::V>::empty(),
    {
        let table = Table { entries: Vec::new() };
        assert(table.entries.deep_view() =~= Seq::<(Seq<char>, V::V)>::empty());
        table
    }

    /// Adds an entry, which from now on is the one that counts for its key.
    pub fn insert(&mut self, key: String, value: V)
        ensures
            final(self).deep_view() == old(self).deep_view().push((key@, value.deep_view())),
            final(self).mapping() == old(self).mapping().insert(key@, value.deep_view()),
    {
        let ghost before = self.entries.deep_view();
        let ghost pair = (key@, value.deep_view());
        self.entries.push((key, value));
        assert(self.entries.deep_view() =~= before.push(pair));
        assert(before.push(pair).drop_last() =~= before);
    }

    /// The value that counts for `key`, where the table has one.
    pub fn get(&self, key: &str) -> (r: Option<&V>)
        ensures
            match r {
                Some(value) => self.mapping().contains_key(key@) && self.mapping()[key@]
                    == value.deep_view(),
                None => !self.mapping().contains_key(key@),
            },
    {
        let ghost pairs = self.entries.deep_view();
        assert(pairs.take(self.entries@.len() as int) =~= pairs);
        let wanted: String = key.to_owned();
        let mut i: usize = self.entries.len();
        while i > 0
            invariant
                i <= self.entries@.len(),
                pairs == self.entries.deep_view(),
                wanted@ == key@,
                table_of(pairs).contains_key(key@) == table_of(pairs.take(i as int)).contains_key(
                    key@,
                ),
                table_of(pairs).contains_key(key@) ==> table_of(pairs)[key@] == table_of(
                    pairs.take(i as int),
                )[key@],
            decreases i,
        {
            let ghost upto = pairs.take(i as int);
            assert(upto.last() == pairs[i - 1]);
            assert(upto.drop_last() =~= pairs.take(i - 1));
            i -= 1;
            if self.entries[i].0 == wanted {
                assert(table_of(upto)[key@] == self.entries@[i as int].1.deep_view());
                return Some(&self.entries[i].1);
            }
        }
        None
    }

    /// Whether the table has a value for `key`.
    pub fn contains_key(&self, key: &str) -> (r: bool)
        ensures
            r == self.mapping().contains_key(key@),
    {
        self.get(key).is_some()
    }
}

} // verus!

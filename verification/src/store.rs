//! A model of the single-table store behind the application: one row per
//! inserted name, ids assigned by insertion order. The event loop talks to
//! the real database file; this model is what its two queries — load-all and
//! insert-one — are held to.

use vstd::prelude::*;

verus! {

/// The store's one table, `item(id, name)`, modelled by its column of names
/// in insertion order: the row at index `i` carries id `i + 1`.
pub struct Store {
    names: Vec<String>,
}

impl View for Store {
    type V = Seq<String>;

    closed spec fn view(&self) -> Seq<String> {
        self.names@
    }
}

impl Store {
    /// A store with its schema in place and no rows yet.
    pub fn new() -> (s: Store)
        ensures
            s@ =~= Seq::<String>::empty(),
    {
        Store { names: Vec::new() }
    }

    /// Append one row and hand back its id. Ids are unique and monotonic by
    /// insertion order, 1-based like the rowids the database assigns. Names
    /// need not be distinct: two inserts of the same name make two rows.
    pub fn insert(&mut self, name: String) -> (id: usize)
        requires
            old(self)@.len() < usize::MAX,
        ensures
            final(self)@ == old(self)@.push(name),
            id == old(self)@.len() + 1,
    {
        self.names.push(name);
        self.names.len()
    }

    /// Read every row's name, in id order — exactly the store's contents.
    pub fn load_all(&self) -> (r: Vec<String>)
        ensures
            r@ == self@,
    {
        let mut out: Vec<String> = Vec::new();
        let mut i: usize = 0;
        while i < self.names.len()
            invariant
                i <= self.names.len(),
                out@ =~= self@.take(i as int),
            decreases self.names.len() - i,
        {
            out.push(self.names[i].clone());
            i = i + 1;
            proof {
                assert(out@ =~= self@.take(i as int));
            }
        }
        proof {
            assert(out@ =~= self@);
        }
        out
    }
}

/// The store after the names of `names` are inserted one after another into
/// a store holding `contents`: each insert appends its name, as
/// [`Store::insert`] ensures.
pub open spec fn insert_all(contents: Seq<String>, names: Seq<String>) -> Seq<String>
    decreases names.len(),
{
    if names.len() == 0 {
        contents
    } else {
        insert_all(contents.push(names[0]), names.drop_first())
    }
}

/// Inserting a run of names appends them in order.
pub proof fn lemma_insert_all_appends(contents: Seq<String>, names: Seq<String>)
    ensures
        insert_all(contents, names) == contents + names,
    decreases names.len(),
{
    if names.len() == 0 {
        assert(contents + names =~= contents);
    } else {
        lemma_insert_all_appends(contents.push(names[0]), names.drop_first());
        assert(contents.push(names[0]) + names.drop_first() =~= contents + names);
    }
}

/// Round trip: the names written into a fresh store are exactly the store's
/// contents afterwards — the same names, each as often as it was written —
/// and [`Store::load_all`] reads the contents exactly. So writing, then
/// reading everything back, yields the names that were written.
pub proof fn lemma_round_trip(names: Seq<String>)
    ensures
        insert_all(Seq::<String>::empty(), names) == names,
        insert_all(Seq::<String>::empty(), names).to_multiset() == names.to_multiset(),
{
    lemma_insert_all_appends(Seq::<String>::empty(), names);
    assert(Seq::<String>::empty() + names =~= names);
}

} // verus!

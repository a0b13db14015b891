//! The reference table of one document: from reference label to link target.

use vstd::prelude::*;
use vstd::hash_map::StringHashMap;

verus! {

/// A mapping from reference label to resolved URL. It is filled before a
/// document is rendered and only read while it is rendered.
pub struct RefTable {
    map: StringHashMap<String>,
}

impl View for RefTable {
    type V = Map<Seq<char>, Seq<char>>;

    closed spec fn view(&self) -> Map<Seq<char>, Seq<char>> {
        self.map@.map_values(|url: String| url@)
    }
}

impl RefTable {
    /// A table without any label.
    pub fn new() -> (table: RefTable)
        ensures
            table@ == Map::<Seq<char>, Seq<char>>::empty(),
    {
        RefTable { map: StringHashMap::new() }
    }

    /// Binds `label` to `url`. A label is bound once at most: a second
    /// binding replaces the first.
    pub fn insert(&mut self, label: String, url: String)
        ensures
            final(self)@ == old(self)@.insert(label@, url@),
    {
        self.map.insert(label, url);
        assert(self@ =~= old(self)@.insert(label@, url@));
    }

    /// The URL that `label` is bound to, if it is bound.
    pub fn get(&self, label: &str) -> (found: Option<&String>)
        ensures
            found is Some <==> self@.contains_key(label@),
            found is Some ==> found.unwrap()@ == self@[label@],
    {
        self.map.get(label)
    }

    /// The number of labels that are bound.
    pub fn len(&self) -> (n: usize)
        ensures
            n == self@.len(),
    {
        assert(self@.dom() =~= self.map@.dom());
        self.map.len()
    }
}

} // verus!

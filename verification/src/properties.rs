//! Named properties (`key=value` settings of ZFS pools and datasets).

use vstd::prelude::*;

verus! {

/// No key occurs twice among the entries.
pub open spec fn keys_distinct(entries: Seq<(Seq<char>, Seq<char>)>) -> bool {
    forall|i: int, j: int|
        0 <= i < entries.len() && 0 <= j < entries.len() && i != j
            ==> #[trigger] entries[i].0 != #[trigger] entries[j].0
}

/// A set of named properties, each key at most once, kept in the order in
/// which the keys were first inserted.
#[derive(Debug)]
pub struct Properties {
    entries: Vec<(String, String)>,
}

impl View for Properties {
    type V = Seq<(Seq<char>, Seq<char>)>;

    closed spec fn view(&self) -> Seq<(Seq<char>, Seq<char>)> {
        self.entries.deep_view()
    }
}

/// The entries of optional properties.
pub open spec fn option_view(p: Option<Properties>) -> Option<Seq<(Seq<char>, Seq<char>)>> {
    match p {
        Some(p) => Some(p@),
        None => None,
    }
}

/// A copy of optional properties.
pub fn duplicate_option(p: &Option<Properties>) -> (res: Option<Properties>)
    ensures
        option_view(res) == option_view(*p),
{
    match p {
        Some(p) => Some(p.duplicate()),
        None => None,
    }
}

impl Properties {
    #[verifier::type_invariant]
    spec fn keys_are_distinct(self) -> bool {
        keys_distinct(self.entries.deep_view())
    }

    /// No properties.
    pub fn new() -> (res: Properties)
        ensures
            res@ == Seq::<(Seq<char>, Seq<char>)>::empty(),
    {
        let res = Properties { entries: Vec::new() };
        assert(res.entries.deep_view() =~= Seq::<(Seq<char>, Seq<char>)>::empty());
        res
    }

    /// The number of properties.
    pub fn len(&self) -> (n: usize)
        ensures
            n == self@.len(),
            keys_distinct(self@),
    {
        proof { use_type_invariant(self); }
        self.entries.len()
    }

    /// The key and value of the `i`-th property.
    pub fn entry(&self, i: usize) -> (kv: (&String, &String))
        requires
            i < self@.len(),
        ensures
            kv.0@ == self@[i as int].0,
            kv.1@ == self@[i as int].1,
    {
        let e = &self.entries[i];
        (&e.0, &e.1)
    }

    /// A copy holding the same properties in the same order.
    pub fn duplicate(&self) -> (res: Properties)
        ensures
            res@ == self@,
    {
        proof { use_type_invariant(self); }
        let mut entries: Vec<(String, String)> = Vec::new();
        let n = self.entries.len();
        let mut i: usize = 0;
        while i < n
            invariant
                n == self.entries.len(),
                i <= n,
                entries.deep_view() == self.entries.deep_view().take(i as int),
            decreases n - i,
        {
            let e = &self.entries[i];
            let ghost before = entries.deep_view();
            entries.push((e.0.clone(), e.1.clone()));
            assert(entries.deep_view() =~= before.push(self.entries.deep_view()[i as int]));
            assert(self.entries.deep_view().take(i + 1) =~= self.entries.deep_view().take(
                i as int,
            ).push(self.entries.deep_view()[i as int]));
            i = i + 1;
        }
        assert(self.entries.deep_view().take(n as int) =~= self.entries.deep_view());
        Properties { entries }
    }

    /// Sets `key` to `value`: an existing key keeps its place and takes the new
    /// value, a new key is added at the end.
    pub fn insert(&mut self, key: String, value: String)
        ensures
            (exists|i: int| 0 <= i < old(self)@.len() && old(self)@[i].0 == key@)
                ==> exists|i: int|
                0 <= i < old(self)@.len() && old(self)@[i].0 == key@
                    && final(self)@ == old(self)@.update(i, (key@, value@)),
            (forall|i: int| 0 <= i < old(self)@.len() ==> old(self)@[i].0 != key@)
                ==> final(self)@ == old(self)@.push((key@, value@)),
    {
        proof { use_type_invariant(&*self); }
        let ghost before = self.entries.deep_view();
        let n = self.entries.len();
        let mut i: usize = 0;
        while i < n
            invariant
                n == self.entries.len(),
                before == self.entries.deep_view(),
                before == old(self)@,
                keys_distinct(before),
                i <= n,
                forall|j: int| 0 <= j < i ==> before[j].0 != key@,
            decreases n - i,
        {
            if self.entries[i].0 == key {
                let mut entries: Vec<(String, String)> = Vec::new();
                std::mem::swap(&mut entries, &mut self.entries);
                entries.set(i, (key, value));
                proof {
                    assert(entries.deep_view() =~= before.update(i as int, (key@, value@)));
                    assert(before[i as int].0 == key@);
                }
                self.entries = entries;
                return;
            }
            i = i + 1;
        }
        let mut entries: Vec<(String, String)> = Vec::new();
                std::mem::swap(&mut entries, &mut self.entries);
        entries.push((key, value));
        proof {
            assert(entries.deep_view() =~= before.push((key@, value@)));
        }
        self.entries = entries;
    }
}

} // verus!

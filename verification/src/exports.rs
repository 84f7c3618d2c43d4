//! The export mapping: export names to tagged entity references.
//!
//! Export names are unique within a module. Declaring a second export under
//! an already-used name silently overwrites the first: last write wins, by
//! design, rather than an error.

use crate::types::FunctionIndex;
use crate::types::GlobalIndex;
use crate::types::MemoryIndex;
use crate::types::TableIndex;
use vstd::prelude::*;

verus! {

/// An entity a module exports: a tagged reference into exactly one of the
/// four exportable index spaces.
#[derive(Clone, Copy, Debug, PartialEq, Eq)]
pub enum Export {
    /// Function export.
    Function(FunctionIndex),
    /// Table export.
    Table(TableIndex),
    /// Memory export.
    Memory(MemoryIndex),
    /// Global export.
    Global(GlobalIndex),
}

/// A name-to-entity map with last-write-wins insertion, viewed in
/// specifications as a `Map<Seq<char>, Export>`.
///
/// The entries are kept as a sequence of pairs with pairwise-distinct names,
/// so the number of entries always equals the size of the abstract map.
#[derive(Debug)]
pub struct ExportMap {
    entries: Vec<(String, Export)>,
}

/// The abstract map described by a sequence of name/export pairs: each pair
/// is inserted in order, so a later pair under the same name wins.
spec fn map_of(entries: Seq<(String, Export)>) -> Map<Seq<char>, Export>
    decreases entries.len(),
{
    if entries.len() == 0 {
        Map::empty()
    } else {
        map_of(entries.drop_last()).insert(entries.last().0@, entries.last().1)
    }
}

/// Pairwise-distinct names among the entries.
spec fn distinct_names(entries: Seq<(String, Export)>) -> bool {
    forall|i: int, j: int|
        0 <= i < j < entries.len() ==> entries[i].0@ != entries[j].0@
}

/// A key is in the abstract map exactly when some entry carries it, and the
/// domain is finite.
proof fn lemma_map_of_dom(entries: Seq<(String, Export)>)
    ensures
        map_of(entries).dom().finite(),
        forall|k: Seq<char>|
            #[trigger] map_of(entries).contains_key(k) <==> exists|i: int|
                0 <= i < entries.len() && (#[trigger] entries[i]).0@ == k,
    decreases entries.len(),
{
    broadcast use vstd::set::group_set_axioms;
    broadcast use vstd::map::group_map_axioms;

    if entries.len() == 0 {
    } else {
        lemma_map_of_dom(entries.drop_last());
        let prev = entries.drop_last();
        assert forall|k: Seq<char>| #[trigger] map_of(entries).contains_key(k) implies exists|i: int|
            0 <= i < entries.len() && (#[trigger] entries[i]).0@ == k by {
            if k == entries.last().0@ {
                assert(entries[entries.len() - 1].0@ == k);
            } else {
                let i = choose|i: int| 0 <= i < prev.len() && (#[trigger] prev[i]).0@ == k;
                assert(entries[i].0@ == k);
            }
        }
        assert forall|k: Seq<char>|
            (exists|i: int|
                0 <= i < entries.len() && (#[trigger] entries[i]).0@ == k) implies #[trigger] map_of(
            entries,
        ).contains_key(k) by {
            let i = choose|i: int| 0 <= i < entries.len() && (#[trigger] entries[i]).0@ == k;
            if i < entries.len() - 1 {
                assert(prev[i].0@ == k);
            }
        }
    }
}

/// With pairwise-distinct names, the entry at position `i` gives the value
/// the abstract map holds under its name.
proof fn lemma_map_of_index(entries: Seq<(String, Export)>, i: int)
    requires
        distinct_names(entries),
        0 <= i < entries.len(),
    ensures
        map_of(entries).contains_key(entries[i].0@),
        map_of(entries)[entries[i].0@] == entries[i].1,
    decreases entries.len(),
{
    broadcast use vstd::map::group_map_axioms;

    if i == entries.len() - 1 {
    } else {
        let prev = entries.drop_last();
        assert(distinct_names(prev));
        lemma_map_of_index(prev, i);
        assert(entries[i].0@ != entries.last().0@);
    }
}

/// With pairwise-distinct names, the abstract map has exactly one entry per
/// pair in the sequence.
proof fn lemma_map_of_len(entries: Seq<(String, Export)>)
    requires
        distinct_names(entries),
    ensures
        map_of(entries).dom().len() == entries.len(),
    decreases entries.len(),
{
    broadcast use vstd::set::group_set_axioms;
    broadcast use vstd::map::group_map_axioms;

    if entries.len() == 0 {
    } else {
        let prev = entries.drop_last();
        assert(distinct_names(prev));
        lemma_map_of_len(prev);
        lemma_map_of_dom(prev);
        assert(!map_of(prev).contains_key(entries.last().0@));
    }
}

/// Replacing the export of the entry at position `i`, keeping its name, is
/// insertion under that name in the abstract map.
proof fn lemma_map_of_update(entries: Seq<(String, Export)>, i: int, value: Export)
    requires
        distinct_names(entries),
        0 <= i < entries.len(),
    ensures
        map_of(entries.update(i, (entries[i].0, value))) == map_of(entries).insert(
            entries[i].0@,
            value,
        ),
    decreases entries.len(),
{
    broadcast use vstd::map::group_map_axioms;

    let updated = entries.update(i, (entries[i].0, value));
    if i == entries.len() - 1 {
        assert(updated.drop_last() =~= entries.drop_last());
        assert(map_of(updated) =~= map_of(entries).insert(entries[i].0@, value));
    } else {
        let prev = entries.drop_last();
        assert(distinct_names(prev));
        lemma_map_of_update(prev, i, value);
        assert(updated.drop_last() =~= prev.update(i, (entries[i].0, value)));
        assert(entries[i].0@ != entries.last().0@);
        assert(map_of(updated) =~= map_of(entries).insert(entries[i].0@, value));
    }
}

/// The abstract export map after declaring, in order and starting from no
/// exports, the function `funcs[i]` as an export named `names[i]`: exactly
/// the map a sequence of `insert` calls with those arguments builds.
pub open spec fn function_exports(names: Seq<Seq<char>>, funcs: Seq<FunctionIndex>) -> Map<
    Seq<char>,
    Export,
>
    decreases names.len(),
{
    if names.len() == 0 {
        Map::empty()
    } else {
        function_exports(names.drop_last(), funcs.drop_last()).insert(
            names.last(),
            Export::Function(funcs.last()),
        )
    }
}

/// A name is exported exactly when it occurs in `names`, and the map's
/// domain is finite.
proof fn lemma_function_exports_dom(names: Seq<Seq<char>>, funcs: Seq<FunctionIndex>)
    requires
        names.len() == funcs.len(),
    ensures
        function_exports(names, funcs).dom().finite(),
        forall|k: Seq<char>|
            #[trigger] function_exports(names, funcs).contains_key(k) <==> exists|i: int|
                0 <= i < names.len() && names[i] == k,
    decreases names.len(),
{
    broadcast use vstd::set::group_set_axioms;
    broadcast use vstd::map::group_map_axioms;

    if names.len() == 0 {
    } else {
        let pn = names.drop_last();
        let pf = funcs.drop_last();
        lemma_function_exports_dom(pn, pf);
        assert forall|k: Seq<char>| #[trigger] function_exports(names, funcs).contains_key(k)
            implies exists|i: int| 0 <= i < names.len() && names[i] == k by {
            if k == names.last() {
                assert(names[names.len() - 1] == k);
            } else {
                let i = choose|i: int| 0 <= i < pn.len() && pn[i] == k;
                assert(names[i] == k);
            }
        }
        assert forall|k: Seq<char>|
            (exists|i: int| 0 <= i < names.len() && names[i] == k) implies #[trigger] function_exports(
            names,
            funcs,
        ).contains_key(k) by {
            let i = choose|i: int| 0 <= i < names.len() && names[i] == k;
            if i < names.len() - 1 {
                assert(pn[i] == k);
            }
        }
    }
}

/// Round trip through the export map: declaring each of `M` functions as an
/// export under its own distinct name yields an export map of size `M`, and
/// every name resolves back to the function index it was declared with.
pub proof fn lemma_export_round_trip(names: Seq<Seq<char>>, funcs: Seq<FunctionIndex>)
    requires
        names.len() == funcs.len(),
        forall|i: int, j: int| 0 <= i < j < names.len() ==> names[i] != names[j],
    ensures
        function_exports(names, funcs).dom().len() == names.len(),
        forall|i: int|
            0 <= i < names.len() ==> #[trigger] function_exports(names, funcs)[names[i]]
                == Export::Function(funcs[i]),
        forall|i: int|
            0 <= i < names.len() ==> #[trigger] function_exports(names, funcs).contains_key(
                names[i],
            ),
    decreases names.len(),
{
    broadcast use vstd::set::group_set_axioms;
    broadcast use vstd::map::group_map_axioms;

    if names.len() == 0 {
        assert(function_exports(names, funcs).dom() =~= Set::<Seq<char>>::empty());
    } else {
        let pn = names.drop_last();
        let pf = funcs.drop_last();
        lemma_export_round_trip(pn, pf);
        lemma_function_exports_dom(pn, pf);
        lemma_function_exports_dom(names, funcs);
        assert forall|i: int| 0 <= i < names.len() implies #[trigger] function_exports(
            names,
            funcs,
        ).contains_key(names[i]) by {
            assert(0 <= i < names.len() && names[i] == names[i]);
        }
        if function_exports(pn, pf).contains_key(names.last()) {
            let i = choose|i: int| 0 <= i < pn.len() && pn[i] == names.last();
            assert(names[i] == names[names.len() - 1]);
            assert(false);
        }
        assert forall|i: int| 0 <= i < names.len() implies #[trigger] function_exports(
            names,
            funcs,
        )[names[i]] == Export::Function(funcs[i]) by {
            if i < names.len() - 1 {
                assert(function_exports(pn, pf)[pn[i]] == Export::Function(pf[i]));
                assert(names[i] != names.last());
            }
        }
    }
}

impl View for ExportMap {
    type V = Map<Seq<char>, Export>;

    closed spec fn view(&self) -> Map<Seq<char>, Export> {
        map_of(self.entries@)
    }
}

impl ExportMap {
    /// Every stored name is distinct from every other.
    #[verifier::type_invariant]
    spec fn wf(self) -> bool {
        distinct_names(self.entries@)
    }

    /// Creates an empty export map.
    pub fn new() -> (m: ExportMap)
        ensures
            m@ == Map::<Seq<char>, Export>::empty(),
    {
        ExportMap { entries: Vec::new() }
    }

    /// The position of the entry named `name`, if one exists.
    fn find(&self, name: &String) -> (r: Option<usize>)
        ensures
            match r {
                Some(i) => i < self.entries@.len() && self.entries@[i as int].0@ == name@,
                None => forall|j: int|
                    0 <= j < self.entries@.len() ==> (#[trigger] self.entries@[j]).0@ != name@,
            },
    {
        let n = self.entries.len();
        let mut i: usize = 0;
        while i < n
            invariant
                n == self.entries@.len(),
                i <= n,
                forall|j: int| 0 <= j < i ==> (#[trigger] self.entries@[j]).0@ != name@,
            decreases n - i,
        {
            if self.entries[i].0.eq(name) {
                return Some(i);
            }
            i = i + 1;
        }
        None
    }

    /// Inserts `export` under `name`, overwriting any previous export of the
    /// same name: last write wins.
    pub fn insert(&mut self, name: String, export: Export)
        ensures
            final(self)@ == old(self)@.insert(name@, export),
    {
        proof {
            use_type_invariant(&*self);
        }
        match self.find(&name) {
            Some(i) => {
                proof {
                    lemma_map_of_update(self.entries@, i as int, export);
                }
                let mut entries: Vec<(String, Export)> = Vec::new();
                core::mem::swap(&mut entries, &mut self.entries);
                entries[i].1 = export;
                proof {
                    assert(entries@ =~= old(self).entries@.update(
                        i as int,
                        (old(self).entries@[i as int].0, export),
                    ));
                    assert forall|a: int, b: int|
                        0 <= a < b < entries@.len() implies entries@[a].0@ != entries@[b].0@ by {
                        assert(entries@[a].0@ == old(self).entries@[a].0@);
                        assert(entries@[b].0@ == old(self).entries@[b].0@);
                    }
                }
                core::mem::swap(&mut entries, &mut self.entries);
            },
            None => {
                let mut entries: Vec<(String, Export)> = Vec::new();
                core::mem::swap(&mut entries, &mut self.entries);
                entries.push((name, export));
                proof {
                    assert(entries@.drop_last() =~= old(self).entries@);
                    assert forall|a: int, b: int|
                        0 <= a < b < entries@.len() implies entries@[a].0@ != entries@[b].0@ by {
                        if b == entries@.len() - 1 {
                            assert(old(self).entries@[a].0@ != name@);
                        }
                    }
                }
                core::mem::swap(&mut entries, &mut self.entries);
            },
        }
    }

    /// The export stored under `name`, if any.
    pub fn get(&self, name: &String) -> (r: Option<&Export>)
        ensures
            r == if self@.contains_key(name@) {
                Some(&self@[name@])
            } else {
                None::<&Export>
            },
    {
        proof {
            use_type_invariant(&*self);
            lemma_map_of_dom(self.entries@);
        }
        match self.find(name) {
            Some(i) => {
                proof {
                    lemma_map_of_index(self.entries@, i as int);
                }
                Some(&self.entries[i].1)
            },
            None => None,
        }
    }

    /// Whether some export is stored under `name`.
    pub fn contains_key(&self, name: &String) -> (r: bool)
        ensures
            r == self@.contains_key(name@),
    {
        self.get(name).is_some()
    }

    /// The number of exported names.
    pub fn len(&self) -> (n: usize)
        ensures
            n == self@.dom().len(),
    {
        proof {
            use_type_invariant(&*self);
            lemma_map_of_len(self.entries@);
        }
        self.entries.len()
    }

    /// The stored name/export pairs, for walking all exports: one pair per
    /// exported name, in no significant order.
    pub fn entries(&self) -> (r: &Vec<(String, Export)>)
        ensures
            r@.len() == self@.dom().len(),
            forall|i: int, j: int| 0 <= i < j < r@.len() ==> r@[i].0@ != r@[j].0@,
            forall|i: int|
                0 <= i < r@.len() ==> #[trigger] self@.contains_key(r@[i].0@) && self@[r@[i].0@]
                    == r@[i].1,
            forall|k: Seq<char>|
                #[trigger] self@.contains_key(k) ==> exists|i: int|
                    0 <= i < r@.len() && (#[trigger] r@[i]).0@ == k,
    {
        proof {
            use_type_invariant(&*self);
            lemma_map_of_len(self.entries@);
            lemma_map_of_dom(self.entries@);
            assert forall|i: int|
                0 <= i < self.entries@.len() implies #[trigger] self@.contains_key(
                self.entries@[i].0@,
            ) && self@[self.entries@[i].0@] == self.entries@[i].1 by {
                lemma_map_of_index(self.entries@, i);
            }
        }
        &self.entries
    }

    /// Whether no export has been declared.
    pub fn is_empty(&self) -> (r: bool)
        ensures
            r == (self@.dom() == Set::<Seq<char>>::empty()),
    {
        proof {
            use_type_invariant(&*self);
            lemma_map_of_len(self.entries@);
            lemma_map_of_dom(self.entries@);
            broadcast use vstd::set::group_set_axioms;

            if self.entries@.len() == 0 {
                assert(self@.dom() =~= Set::<Seq<char>>::empty());
            } else {
                assert(self@.contains_key(self.entries@[0].0@));
            }
        }
        self.entries.len() == 0
    }
}

} // verus!

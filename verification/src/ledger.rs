//! The deduplication ledger: per-traversal bookkeeping of which
//! function and variable names were already surfaced, and, for each
//! struct name, whether a non-empty definition was already surfaced.
use vstd::prelude::*;

verus! {

/// The ledger one traversal owns. Function and variable names share one
/// set; struct names map to whether a definition with fields has been
/// surfaced.
pub struct Ledger {
    names: Vec<String>,
    structs: Vec<(String, bool)>,
}

/// Mathematical value of a ledger.
pub ghost struct LedgerModel {
    pub names: Set<Seq<char>>,
    pub structs: Map<Seq<char>, bool>,
}

/// The name set a sequence of recorded names denotes.
pub open spec fn names_set(v: Seq<String>) -> Set<Seq<char>> {
    Set::new(|n: Seq<char>| exists|i: int| 0 <= i < v.len() && v[i]@ == n)
}

/// The struct map a sequence of recorded entries denotes; a later entry
/// for the same name wins.
pub open spec fn structs_map(v: Seq<(String, bool)>) -> Map<Seq<char>, bool>
    decreases v.len(),
{
    if v.len() == 0 {
        Map::<Seq<char>, bool>::empty()
    } else {
        structs_map(v.drop_last()).insert(v.last().0@, v.last().1)
    }
}

impl View for Ledger {
    type V = LedgerModel;

    closed spec fn view(&self) -> LedgerModel {
        LedgerModel { names: names_set(self.names@), structs: structs_map(self.structs@) }
    }
}

/// The ledger a traversal starts from: nothing surfaced yet.
pub open spec fn empty_ledger() -> LedgerModel {
    LedgerModel { names: Set::<Seq<char>>::empty(), structs: Map::<Seq<char>, bool>::empty() }
}

impl Ledger {
    /// A fresh ledger, holding nothing.
    pub fn new() -> (r: Ledger)
        ensures
            r@ == empty_ledger(),
    {
        let r = Ledger { names: Vec::new(), structs: Vec::new() };
        proof {
            assert(names_set(r.names@) =~= Set::<Seq<char>>::empty());
        }
        r
    }

    /// Whether a function or variable name was already surfaced.
    pub fn contains_name(&self, name: &String) -> (r: bool)
        ensures
            r == self@.names.contains(name@),
    {
        let mut i: usize = 0;
        while i < self.names.len()
            invariant
                i <= self.names.len(),
                forall|k: int| 0 <= k < i ==> self.names@[k]@ != name@,
            decreases self.names.len() - i,
        {
            if self.names[i] == *name {
                return true;
            }
            i = i + 1;
        }
        false
    }

    /// Record a surfaced function or variable name.
    pub fn record_name(&mut self, name: String)
        ensures
            final(self)@.names == old(self)@.names.insert(name@),
            final(self)@.structs == old(self)@.structs,
    {
        proof {
            lemma_names_set_push(self.names@, name);
        }
        self.names.push(name);
    }

    /// Whether a non-empty definition was already surfaced for this
    /// struct name.
    pub fn struct_defined(&self, name: &String) -> (r: bool)
        ensures
            r == (self@.structs.contains_key(name@) && self@.structs[name@]),
    {
        let mut j: usize = self.structs.len();
        proof {
            assert(self.structs@.take(j as int) =~= self.structs@);
        }
        while j > 0
            invariant
                j <= self.structs.len(),
                map_get(structs_map(self.structs@), name@) == map_get(
                    structs_map(self.structs@.take(j as int)),
                    name@,
                ),
            decreases j,
        {
            proof {
                let pre = self.structs@.take(j as int);
                assert(pre.drop_last() =~= self.structs@.take(j - 1));
                assert(pre.last() == self.structs@[j - 1]);
            }
            if self.structs[j - 1].0 == *name {
                return self.structs[j - 1].1;
            }
            j = j - 1;
        }
        proof {
            assert(self.structs@.take(0) =~= Seq::<(String, bool)>::empty());
        }
        false
    }

    /// Record a struct occurrence: whether this one carried fields. A
    /// later record for the same name replaces the earlier answer.
    pub fn record_struct(&mut self, name: String, defined: bool)
        ensures
            final(self)@.structs == old(self)@.structs.insert(name@, defined),
            final(self)@.names == old(self)@.names,
    {
        proof {
            let pushed = self.structs@.push((name, defined));
            assert(pushed.drop_last() =~= self.structs@);
        }
        self.structs.push((name, defined));
    }
}

proof fn lemma_names_set_push(v: Seq<String>, s: String)
    ensures
        names_set(v.push(s)) == names_set(v).insert(s@),
{
    let a = names_set(v.push(s));
    let b = names_set(v).insert(s@);
    assert forall|n: Seq<char>| a.contains(n) implies b.contains(n) by {
        let i = choose|i: int| 0 <= i < v.push(s).len() && v.push(s)[i]@ == n;
        if i < v.len() {
            assert(v[i]@ == n);
        } else {
            assert(v.push(s)[v.len() as int]@ == s@);
        }
    }
    assert forall|n: Seq<char>| b.contains(n) implies a.contains(n) by {
        if n == s@ {
            assert(v.push(s)[v.len() as int]@ == n);
        } else {
            let i = choose|i: int| 0 <= i < v.len() && v[i]@ == n;
            assert(v.push(s)[i]@ == n);
        }
    }
    assert(a =~= b);
}

/// Lookup in a struct map as an optional value.
pub open spec fn map_get(m: Map<Seq<char>, bool>, k: Seq<char>) -> Option<bool> {
    if m.contains_key(k) {
        Some(m[k])
    } else {
        None
    }
}

} // verus!

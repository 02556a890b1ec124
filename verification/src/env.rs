//! The variable environment: a single mutable mapping from symbol to
//! expression value, modelled as a `Map` from the symbol's text to the value's
//! model. `define` inserts unconditionally; the `def` special form is
//! responsible for checking that the symbol is not yet bound.

use vstd::prelude::*;

use crate::sx::{Sx, SxSpec, SxSymbol};

verus! {

/// The binding store: a symbol, once defined, maps to its value.
pub struct Env {
    bindings: Vec<(SxSymbol, Sx)>,
}

/// The mapping an association sequence denotes; a later entry for the same
/// symbol wins.
pub open spec fn bindings_map(s: Seq<(SxSymbol, Sx)>) -> Map<Seq<char>, SxSpec>
    decreases s.len(),
{
    if s.len() == 0 {
        Map::empty()
    } else {
        bindings_map(s.drop_last()).insert(s.last().0@, s.last().1@)
    }
}

impl View for Env {
    type V = Map<Seq<char>, SxSpec>;

    closed spec fn view(&self) -> Map<Seq<char>, SxSpec> {
        bindings_map(self.bindings@)
    }
}

/// In a store whose entries at positions past `j` all have keys other than
/// `k`, and whose entry at `j` has key `k`, the mapping takes `k` to the value
/// at `j`.
proof fn lemma_bindings_map_found(s: Seq<(SxSymbol, Sx)>, k: Seq<char>, j: int)
    requires
        0 <= j < s.len(),
        s[j].0@ == k,
        forall|m: int| j < m < s.len() ==> (#[trigger] s[m]).0@ != k,
    ensures
        bindings_map(s).contains_key(k),
        bindings_map(s)[k] == s[j].1@,
    decreases s.len(),
{
    if j == s.len() - 1 {
    } else {
        assert(s.drop_last()[j] == s[j]);
        assert(forall|m: int|
            j < m < s.drop_last().len() ==> (#[trigger] s.drop_last()[m]) == s[m]);
        lemma_bindings_map_found(s.drop_last(), k, j);
    }
}

/// A key that no entry has is absent from the mapping.
proof fn lemma_bindings_map_absent(s: Seq<(SxSymbol, Sx)>, k: Seq<char>)
    requires
        forall|m: int| 0 <= m < s.len() ==> (#[trigger] s[m]).0@ != k,
    ensures
        !bindings_map(s).contains_key(k),
    decreases s.len(),
{
    if s.len() > 0 {
        assert(forall|m: int|
            0 <= m < s.drop_last().len() ==> (#[trigger] s.drop_last()[m]) == s[m]);
        lemma_bindings_map_absent(s.drop_last(), k);
    }
}

impl Env {
    /// A fresh environment with no bindings.
    pub fn new() -> (r: Env)
        ensures
            r@ == Map::<Seq<char>, SxSpec>::empty(),
    {
        Env { bindings: Vec::new() }
    }

    /// The value bound to `symbol`, if any. The most recent binding wins,
    /// though `def` never lets a symbol be bound twice.
    pub fn lookup(&self, symbol: &SxSymbol) -> (r: Option<&Sx>)
        ensures
            match r {
                Some(v) => self@.contains_key(symbol@) && v@ == self@[symbol@],
                None => !self@.contains_key(symbol@),
            },
    {
        let mut i: usize = self.bindings.len();
        while i > 0
            invariant
                i <= self.bindings@.len(),
                forall|m: int|
                    i <= m < self.bindings@.len() ==> (#[trigger] self.bindings@[m]).0@
                        != symbol@,
            decreases i,
        {
            i = i - 1;
            if self.bindings[i].0 == *symbol {
                proof {
                    lemma_bindings_map_found(self.bindings@, symbol@, i as int);
                }
                return Some(&self.bindings[i].1);
            }
        }
        proof {
            lemma_bindings_map_absent(self.bindings@, symbol@);
        }
        None
    }

    /// Bind `symbol` to `value`, unconditionally.
    pub fn define(&mut self, symbol: &SxSymbol, value: &Sx)
        ensures
            final(self)@ == old(self)@.insert(symbol@, value@),
    {
        let entry = (symbol.clone(), value.duplicate());
        let ghost old_bindings = self.bindings@;
        self.bindings.push(entry);
        proof {
            assert(self.bindings@.drop_last() =~= old_bindings);
        }
    }
}

} // verus!

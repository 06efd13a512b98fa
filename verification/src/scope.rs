//! The scope stack: the name-lookup service the analyzer consults, modeled
//! as an explicit stack of declaration frames. Lookup takes the most recent
//! declaration of a name, so inner frames shadow outer ones.

use vstd::prelude::*;
use crate::hir::Metadata;

verus! {

/// One declared name together with what it resolves to.
#[derive(PartialEq, Eq, Debug)]
pub struct ScopeEntry {
    pub name: u64,
    pub meta: Metadata,
}

/// The most recent entry for `name`, searched from the end.
pub open spec fn spec_lookup(entries: Seq<ScopeEntry>, name: u64) -> Option<Metadata>
    decreases entries.len(),
{
    if entries.len() == 0 {
        None
    } else if entries.last().name == name {
        Some(entries.last().meta)
    } else {
        spec_lookup(entries.drop_last(), name)
    }
}

/// The scope stack. `entries` holds every visible declaration in the order
/// made; `frame_starts` marks where each open frame begins.
#[derive(Debug)]
pub struct Scope {
    pub entries: Vec<ScopeEntry>,
    pub frame_starts: Vec<usize>,
}

impl Scope {
    pub fn new() -> (r: Scope)
        ensures
            r.entries@ == Seq::<ScopeEntry>::empty(),
            r.frame_starts@ == Seq::<usize>::empty(),
    {
        Scope { entries: Vec::new(), frame_starts: Vec::new() }
    }

    /// Resolve a name to the metadata of its most recent declaration.
    pub fn get(&self, name: u64) -> (r: Option<Metadata>)
        ensures
            r == spec_lookup(self.entries@, name),
    {
        let mut i: usize = self.entries.len();
        proof {
            assert(self.entries@.subrange(0, i as int) =~= self.entries@);
        }
        while i > 0
            invariant
                i <= self.entries@.len(),
                spec_lookup(self.entries@, name) == spec_lookup(
                    self.entries@.subrange(0, i as int),
                    name,
                ),
            decreases i,
        {
            i = i - 1;
            let ghost prefix = self.entries@.subrange(0, i + 1);
            proof {
                assert(prefix.last() == self.entries@[i as int]);
                assert(prefix.drop_last() =~= self.entries@.subrange(0, i as int));
            }
            if self.entries[i].name == name {
                return Some(self.entries[i].meta.clone());
            }
        }
        proof {
            assert(self.entries@.subrange(0, 0) =~= Seq::<ScopeEntry>::empty());
        }
        None
    }

    /// Open a new frame.
    pub fn enter(&mut self)
        ensures
            final(self).entries@ == old(self).entries@,
            final(self).frame_starts@ == old(self).frame_starts@.push(
                old(self).entries@.len() as usize,
            ),
            old(self).entries@.len() <= usize::MAX,
    {
        let n = self.entries.len();
        self.frame_starts.push(n);
    }

    /// Declare a name in the innermost frame.
    pub fn insert(&mut self, name: u64, meta: Metadata)
        ensures
            final(self).entries@ == old(self).entries@.push((ScopeEntry { name, meta })),
            final(self).frame_starts@ == old(self).frame_starts@,
    {
        self.entries.push(ScopeEntry { name, meta });
    }

    /// Close the innermost frame, dropping every declaration made in it.
    pub fn exit(&mut self)
        requires
            old(self).frame_starts@.len() > 0,
            old(self).frame_starts@.last() <= old(self).entries@.len(),
        ensures
            final(self).entries@ == old(self).entries@.subrange(
                0,
                old(self).frame_starts@.last() as int,
            ),
            final(self).frame_starts@ == old(self).frame_starts@.drop_last(),
    {
        let start = match self.frame_starts.pop() {
            Some(s) => s,
            None => 0,
        };
        self.entries.truncate(start);
    }
}

} // verus!

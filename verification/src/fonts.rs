//! The font catalog: a pre-parsed, ordered mapping from family name to a
//! loadable resource path, supplied by the surrounding shell. The library
//! never enumerates system fonts itself; it only resolves a family name to
//! the first entry that carries it.

use vstd::prelude::*;

verus! {

/// One catalog entry: a family name and the path of its loadable resource.
pub struct FontEntry {
    pub family: String,
    pub path: String,
}

/// The ordered font catalog.
pub struct FontCatalog {
    pub entries: Vec<FontEntry>,
}

impl FontCatalog {
    /// A catalog starts empty.
    pub fn new() -> (c: FontCatalog)
        ensures
            c.entries@ == Seq::<FontEntry>::empty(),
    {
        FontCatalog { entries: Vec::new() }
    }

    /// Appends an entry; entries keep the order they were added in.
    pub fn add(&mut self, family: String, path: String)
        ensures
            final(self).entries@ == old(self).entries@.push((FontEntry { family, path })),
    {
        self.entries.push(FontEntry { family, path });
    }

    /// Resolves a family name to the index of its first entry, or nothing
    /// when no entry carries that name.
    #[verifier::loop_isolation(false)]
    pub fn resolve(&self, family: &String) -> (r: Option<usize>)
        ensures
            r is Some ==> r->0 < self.entries@.len() && self.entries@[r->0 as int].family@
                == family@ && (forall|k: int|
                0 <= k < r->0 ==> self.entries@[k].family@ != family@),
            r is None ==> forall|k: int|
                0 <= k < self.entries@.len() ==> self.entries@[k].family@ != family@,
    {
        let mut i: usize = 0;
        while i < self.entries.len()
            invariant
                i <= self.entries@.len(),
                forall|k: int| 0 <= k < i ==> self.entries@[k].family@ != family@,
            decreases self.entries@.len() - i,
        {
            if self.entries[i].family == *family {
                return Some(i);
            }
            i = i + 1;
        }
        None
    }

    /// The resource path of the entry at `i`.
    pub fn path_of(&self, i: usize) -> (p: &String)
        requires
            i < self.entries@.len(),
        ensures
            *p == self.entries@[i as int].path,
    {
        &self.entries[i].path
    }

    /// The family name of the entry at `i`.
    pub fn family_of(&self, i: usize) -> (f: &String)
        requires
            i < self.entries@.len(),
        ensures
            *f == self.entries@[i as int].family,
    {
        &self.entries[i].family
    }
}

} // verus!

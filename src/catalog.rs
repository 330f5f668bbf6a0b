//! The in-memory registry that maps index names to handles.
//!
//! Readers look names up through `&self`; only the command handler inserts,
//! and an inserted handle stays for the lifetime of the catalog.
use vstd::prelude::*;

verus! {

/// True when `names` holds `name`.
pub open spec fn has_name(names: Seq<Seq<char>>, name: Seq<char>) -> bool {
    exists|i: int| 0 <= i < names.len() && names[i] == name
}

/// The position of `name` in `names`; meaningful where `has_name` holds.
pub open spec fn slot_of(names: Seq<Seq<char>>, name: Seq<char>) -> int {
    choose|i: int| 0 <= i < names.len() && names[i] == name
}

/// Names in the catalog are unique.
pub open spec fn names_unique(names: Seq<Seq<char>>) -> bool {
    forall|i: int, j: int| 0 <= i < names.len() && 0 <= j < names.len() && i != j ==> names[i] != names[j]
}

/// Where a name is held in a catalog of unique names, `slot_of` finds it.
pub proof fn lemma_slot_of(names: Seq<Seq<char>>, name: Seq<char>, i: int)
    requires
        names_unique(names),
        0 <= i < names.len(),
        names[i] == name,
    ensures
        has_name(names, name),
        slot_of(names, name) == i,
{
}

/// The catalog: a name, and the handle of the index of that name, per slot.
pub struct IndexCatalog<H> {
    names: Vec<String>,
    handles: Vec<H>,
}

impl<H> IndexCatalog<H> {
    /// The names, by slot.
    pub closed spec fn names(&self) -> Seq<Seq<char>> {
        self.names@.map_values(|s: String| s@)
    }

    /// The handles, by slot.
    pub closed spec fn handles(&self) -> Seq<H> {
        self.handles@
    }

    pub closed spec fn wf(&self) -> bool {
        &&& self.names@.len() == self.handles@.len()
        &&& names_unique(self.names())
    }

    /// An empty catalog: nothing is known until it is requested by name.
    pub fn new() -> (r: Self)
        ensures
            r.wf(),
            r.names() == Seq::<Seq<char>>::empty(),
            r.handles() == Seq::<H>::empty(),
    {
        let r = Self { names: Vec::new(), handles: Vec::new() };
        assert(r.names() =~= Seq::<Seq<char>>::empty());
        r
    }

    pub fn len(&self) -> (r: usize)
        requires
            self.wf(),
        ensures
            r == self.names().len(),
    {
        self.names.len()
    }

    /// The slot of `name`, if the catalog holds it.
    pub fn index_of(&self, name: &str) -> (r: Option<usize>)
        requires
            self.wf(),
        ensures
            r is Some <==> has_name(self.names(), name@),
            r matches Some(i) ==> i < self.names().len() && i == slot_of(self.names(), name@),
    {
        let key = name.to_owned();
        let mut i: usize = 0;
        while i < self.names.len()
            invariant
                self.wf(),
                key@ == name@,
                i <= self.names@.len(),
                forall|j: int| 0 <= j < i ==> self.names()[j] != name@,
            decreases self.names@.len() - i,
        {
            if self.names[i] == key {
                proof {
                    lemma_slot_of(self.names(), name@, i as int);
                }
                return Some(i);
            }
            i = i + 1;
        }
        None
    }

    /// The cached handle of `name`, without waiting on anything and without
    /// changing the catalog.
    pub fn get_index_handle(&self, name: &str) -> (r: Option<&H>)
        requires
            self.wf(),
        ensures
            r is Some <==> has_name(self.names(), name@),
            r matches Some(h) ==> *h == self.handles()[slot_of(self.names(), name@)],
    {
        match self.index_of(name) {
            Some(i) => Some(&self.handles[i]),
            None => None,
        }
    }

    /// The handle in slot `i`.
    pub fn handle_at(&self, i: usize) -> (r: &H)
        requires
            self.wf(),
            i < self.names().len(),
        ensures
            *r == self.handles()[i as int],
    {
        &self.handles[i]
    }

    /// Adds a name that the catalog does not hold, in a new last slot.
    pub(crate) fn insert(&mut self, name: String, h: H) -> (r: usize)
        requires
            old(self).wf(),
            !has_name(old(self).names(), name@),
        ensures
            final(self).wf(),
            final(self).names() == old(self).names().push(name@),
            final(self).handles() == old(self).handles().push(h),
            r == old(self).names().len(),
    {
        let r = self.names.len();
        self.names.push(name);
        self.handles.push(h);
        assert(self.names() =~= old(self).names().push(name@));
        r
    }
}

} // verus!

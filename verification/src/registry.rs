use vstd::prelude::*;

verus! {

/// What a lookup finds in a sequence of name/handler entries: the handler
/// of the first entry whose name matches, or nothing when no entry does.
pub open spec fn lookup_spec<H>(entries: Seq<(Seq<char>, H)>, name: Seq<char>) -> Option<H>
    decreases entries.len(),
{
    if entries.len() == 0 {
        None
    } else if entries[0].0 == name {
        Some(entries[0].1)
    } else {
        lookup_spec(entries.drop_first(), name)
    }
}

/// A static table mapping handler names to handlers, assembled once at
/// module-load time and consulted by the host's entry point to dispatch an
/// invocation. No registration or removal happens after assembly; dispatch
/// runs exactly the handler registered under the requested name and touches
/// no other.
pub struct ModuleRegistry<H> {
    entries: Vec<(String, H)>,
}

impl<H> ModuleRegistry<H> {
    /// The registered entries, in registration order, names as character
    /// sequences.
    pub closed spec fn view(&self) -> Seq<(Seq<char>, H)> {
        self.entries@.map_values(|p: (String, H)| (p.0@, p.1))
    }

    /// An empty table.
    pub fn new() -> (r: ModuleRegistry<H>)
        ensures
            r@ =~= Seq::<(Seq<char>, H)>::empty(),
    {
        ModuleRegistry { entries: Vec::new() }
    }

    /// Appends one name/handler entry.
    pub fn register(&mut self, name: String, h: H)
        ensures
            final(self)@ =~= old(self)@.push((name@, h)),
    {
        self.entries.push((name, h));
    }

    /// The default single-handler convention: when a caller exports just
    /// one function and names no table, it is registered under the one
    /// canonical name `"handler"`.
    pub fn single(h: H) -> (r: ModuleRegistry<H>)
        ensures
            r@ =~= Seq::<(Seq<char>, H)>::empty().push(("handler"@, h)),
    {
        let mut r = ModuleRegistry::new();
        r.register("handler".to_owned(), h);
        r
    }

    /// Number of registered entries.
    pub fn len(&self) -> (n: usize)
        ensures
            n == self@.len(),
    {
        self.entries.len()
    }

    /// The handler registered under `name`: the first entry with that name,
    /// or `None` when no entry carries it. Entries under other names are
    /// neither returned nor touched.
    pub fn lookup(&self, name: &String) -> (r: Option<&H>)
        ensures
            match r {
                Some(h) => lookup_spec(self@, name@) == Some(*h),
                None => lookup_spec(self@, name@) is None,
            },
    {
        let n = self.entries.len();
        proof {
            assert(self@.skip(0) =~= self@);
        }
        for i in 0..n
            invariant
                n == self@.len(),
                forall|j: int| 0 <= j < i ==> self@[j].0 != name@,
                lookup_spec(self@, name@) == lookup_spec(self@.skip(i as int), name@),
        {
            proof {
                assert(self@.skip(i as int).drop_first() =~= self@.skip(i + 1));
            }
            if self.entries[i].0 == *name {
                return Some(&self.entries[i].1);
            }
        }
        proof {
            assert(self@.skip(n as int) =~= Seq::<(Seq<char>, H)>::empty());
        }
        None
    }
}

/// A lookup never reaches past the name it was given: when the names in the
/// table are pairwise distinct, looking a name up finds exactly the handler
/// that was registered under it — never an entry registered under another
/// name.
pub proof fn lemma_lookup_finds_registered<H>(entries: Seq<(Seq<char>, H)>, i: int)
    requires
        0 <= i < entries.len(),
        forall|j: int, k: int|
            0 <= j < entries.len() && 0 <= k < entries.len() && j != k ==> entries[j].0
                != entries[k].0,
    ensures
        lookup_spec(entries, entries[i].0) == Some(entries[i].1),
    decreases entries.len(),
{
    if i > 0 {
        lemma_lookup_finds_registered(entries.drop_first(), i - 1);
    }
}

} // verus!

//! The registry: a directory resolving a resource-kind name to the
//! builder that produces providers for that kind. It is seeded once
//! with the builders for the three known kinds and never mutated.

use vstd::prelude::*;

use crate::builder::builder_for;
use crate::builder::FileBuilder;
use crate::builder::GroupBuilder;
use crate::builder::RegisteredBuilder;
use crate::builder::UserBuilder;
use crate::kind::kind_of_name;
use crate::kind::ResourceKind;

verus! {

/// The builder the entry list resolves a kind to: the first entry
/// registered under the kind, or nothing when the kind is absent.
pub open spec fn lookup_in(
    entries: Seq<(ResourceKind, RegisteredBuilder)>,
    k: ResourceKind,
) -> Option<RegisteredBuilder>
    decreases entries.len(),
{
    if entries.len() == 0 {
        None
    } else if entries[0].0 == k {
        Some(entries[0].1)
    } else {
        lookup_in(entries.drop_first(), k)
    }
}

/// The builder the entry list resolves a kind *name* to: nothing for a
/// name outside the closed set, the named kind's resolution otherwise.
pub open spec fn find_in(
    entries: Seq<(ResourceKind, RegisteredBuilder)>,
    s: Seq<char>,
) -> Option<RegisteredBuilder> {
    match kind_of_name(s) {
        Some(k) => lookup_in(entries, k),
        None => None,
    }
}

/// The directory from resource kind to builder. Construction is the
/// only way entries come to exist; there is no mutation API.
pub struct Registry {
    entries: Vec<(ResourceKind, RegisteredBuilder)>,
}

impl View for Registry {
    type V = Seq<(ResourceKind, RegisteredBuilder)>;

    closed spec fn view(&self) -> Seq<(ResourceKind, RegisteredBuilder)> {
        self.entries@
    }
}

impl Registry {
    /// A registry is well formed when every known kind resolves to the
    /// builder for that kind, and no kind is registered twice.
    pub open spec fn wf(&self) -> bool {
        &&& forall|k: ResourceKind| #[trigger] lookup_in(self@, k) == Some(builder_for(k))
        &&& forall|i: int, j: int|
            0 <= i < j < self@.len() ==> (#[trigger] self@[i]).0 != (#[trigger] self@[j]).0
    }

    /// An empty registry: no kind resolves to anything.
    pub fn new() -> (r: Self)
        ensures
            r@ == Seq::<(ResourceKind, RegisteredBuilder)>::empty(),
    {
        Self { entries: Vec::new() }
    }

    /// Resolves a kind to its registered builder, or to nothing when
    /// the kind is absent.
    pub fn lookup(&self, k: ResourceKind) -> (r: Option<RegisteredBuilder>)
        ensures
            r == lookup_in(self@, k),
    {
        let n = self.entries.len();
        let mut i: usize = 0;
        proof {
            assert(self@.skip(0) =~= self@);
        }
        while i < n
            invariant
                n == self@.len(),
                i <= n,
                lookup_in(self@, k) == lookup_in(self@.skip(i as int), k),
            decreases n - i,
        {
            let entry = self.entries[i];
            proof {
                assert(self@.skip(i as int)[0] == self@[i as int]);
                assert(self@.skip(i as int).drop_first() =~= self@.skip(i as int + 1));
            }
            if entry.0 == k {
                return Some(entry.1);
            }
            i += 1;
        }
        None
    }

    /// Resolves a kind name to its registered builder. A name outside
    /// the closed set finds nothing — never a silent default.
    pub fn find(&self, s: &String) -> (r: Option<RegisteredBuilder>)
        ensures
            r == find_in(self@, s@),
    {
        match ResourceKind::from_name(s.as_str()) {
            Some(k) => self.lookup(k),
            None => None,
        }
    }
}

/// Constructs the registry, seeded with exactly the builders for the
/// three known kinds, in the fixed order `user`, `group`, `file`.
pub fn build_registry() -> (r: Registry)
    ensures
        r@ == seq![
            (ResourceKind::User, builder_for(ResourceKind::User)),
            (ResourceKind::Group, builder_for(ResourceKind::Group)),
            (ResourceKind::File, builder_for(ResourceKind::File)),
        ],
        r.wf(),
{
    let mut entries: Vec<(ResourceKind, RegisteredBuilder)> = Vec::new();
    entries.push((ResourceKind::User, RegisteredBuilder::User(UserBuilder::new())));
    entries.push((ResourceKind::Group, RegisteredBuilder::Group(GroupBuilder::new())));
    entries.push((ResourceKind::File, RegisteredBuilder::File(FileBuilder::new())));
    let r = Registry { entries };
    proof {
        let s = r@;
        let tail1 = s.drop_first();
        let tail2 = tail1.drop_first();
        assert(s =~= seq![
            (ResourceKind::User, builder_for(ResourceKind::User)),
            (ResourceKind::Group, builder_for(ResourceKind::Group)),
            (ResourceKind::File, builder_for(ResourceKind::File)),
        ]);
        assert(tail1 =~= seq![
            (ResourceKind::Group, builder_for(ResourceKind::Group)),
            (ResourceKind::File, builder_for(ResourceKind::File)),
        ]);
        assert(tail2 =~= seq![(ResourceKind::File, builder_for(ResourceKind::File))]);
        assert forall|k: ResourceKind| #[trigger] lookup_in(s, k) == Some(builder_for(k)) by {
            match k {
                ResourceKind::User => {
                    assert(lookup_in(s, k) == Some(s[0].1));
                },
                ResourceKind::Group => {
                    assert(lookup_in(s, k) == lookup_in(tail1, k));
                    assert(lookup_in(tail1, k) == Some(tail1[0].1));
                },
                ResourceKind::File => {
                    assert(lookup_in(s, k) == lookup_in(tail1, k));
                    assert(lookup_in(tail1, k) == lookup_in(tail2, k));
                    assert(lookup_in(tail2, k) == Some(tail2[0].1));
                },
            }
        }
    }
    r
}

/// In a well-formed registry, every known kind resolves to a present
/// builder, and that builder is the one for the kind.
pub proof fn lemma_lookup_known_kind(reg: &Registry, k: ResourceKind)
    requires
        reg.wf(),
    ensures
        lookup_in(reg@, k) == Some(builder_for(k)),
{
}

/// Lookup by name never substitutes a default: whatever the registry
/// holds, a name outside the closed set finds nothing.
pub proof fn lemma_unknown_name_finds_nothing(reg: &Registry, s: Seq<char>)
    requires
        kind_of_name(s) is None,
    ensures
        find_in(reg@, s) is None,
{
}

} // verus!

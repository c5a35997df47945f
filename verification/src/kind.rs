//! The closed set of resource kinds the registry serves, and the names
//! under which they are registered.

use vstd::prelude::*;

verus! {

/// A kind of configurable resource. The set is closed and compiled in:
/// there is no dynamic extension point.
#[derive(Clone, Copy, Debug, PartialEq, Eq, Structural)]
pub enum ResourceKind {
    User,
    Group,
    File,
}

/// The name under which each kind is registered.
pub open spec fn kind_name(k: ResourceKind) -> Seq<char> {
    match k {
        ResourceKind::User => "user"@,
        ResourceKind::Group => "group"@,
        ResourceKind::File => "file"@,
    }
}

/// Which kind, if any, a registry key names. Any name outside
/// `user` / `group` / `file` names no kind at all.
pub open spec fn kind_of_name(s: Seq<char>) -> Option<ResourceKind> {
    if s == "user"@ {
        Some(ResourceKind::User)
    } else if s == "group"@ {
        Some(ResourceKind::Group)
    } else if s == "file"@ {
        Some(ResourceKind::File)
    } else {
        None
    }
}

impl ResourceKind {
    /// The registry key for this kind.
    pub fn name(&self) -> (r: &'static str)
        ensures
            r@ == kind_name(*self),
    {
        match self {
            ResourceKind::User => "user",
            ResourceKind::Group => "group",
            ResourceKind::File => "file",
        }
    }

    /// Parses a registry key back into a kind; `None` for every name
    /// outside the closed set.
    pub fn from_name(s: &str) -> (r: Option<ResourceKind>)
        ensures
            r == kind_of_name(s@),
    {
        let owned: String = s.to_owned();
        if owned == "user".to_owned() {
            Some(ResourceKind::User)
        } else if owned == "group".to_owned() {
            Some(ResourceKind::Group)
        } else if owned == "file".to_owned() {
            Some(ResourceKind::File)
        } else {
            None
        }
    }
}

/// Naming is consistent: the key printed for a kind parses back to that
/// same kind, for every kind in the closed set.
pub proof fn lemma_name_round_trip(k: ResourceKind)
    ensures
        kind_of_name(kind_name(k)) == Some(k),
{
    reveal_strlit("user");
    reveal_strlit("group");
    reveal_strlit("file");
    assert("group"@ != "user"@) by {
        assert("group"@.len() != "user"@.len());
    }
    assert("file"@ != "user"@) by {
        assert("file"@[0] != "user"@[0]);
    }
    assert("file"@ != "group"@) by {
        assert("file"@.len() != "group"@.len());
    }
}

} // verus!

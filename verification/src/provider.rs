//! The provider lifecycle contract and the three concrete providers.
//!
//! A provider represents one configurable target (a user, a group, or a
//! file) and is driven through the ordered steps `init`, `run`, `exit`.
//! Each step yields `Result<ProviderResult<_>, ProviderError>`, so a
//! step can succeed, succeed while signalling that it is a no-op, or
//! report the not-implemented error. The default for every step is the
//! not-implemented error; a concrete provider overrides only the steps
//! it supports.

use vstd::prelude::*;

use crate::kind::ResourceKind;
use crate::outcome::Init;
use crate::outcome::ProviderError;
use crate::outcome::ProviderResult;
use crate::outcome::Run;

verus! {

/// The status line a provider's `run` step reports for its kind. Each
/// kind's line names the kind, so the three lines are pairwise distinct.
pub open spec fn status_text(k: ResourceKind) -> Seq<char> {
    match k {
        ResourceKind::User => "configuring user"@,
        ResourceKind::Group => "configure group"@,
        ResourceKind::File => "configure file"@,
    }
}

/// The uniform lifecycle contract. Steps not overridden by a concrete
/// provider report the not-implemented error — and never any other
/// error, since `ProviderError` has no other variant.
pub trait Provider: Sized {
    /// The resource kind this provider configures.
    spec fn kind(&self) -> ResourceKind;

    /// Prepares the target. No concrete provider overrides this step,
    /// so it always reports the not-implemented error.
    fn init(&self) -> (r: Result<ProviderResult<Init>, ProviderError>)
        ensures
            r == Err::<ProviderResult<Init>, ProviderError>(ProviderError::NotImplemented),
    {
        Err(ProviderError::NotImplemented)
    }

    /// Applies the configuration. A concrete provider may override this
    /// step; whether overridden or not, the only error it can report is
    /// the not-implemented one.
    fn run(&self) -> (r: Result<ProviderResult<Run>, ProviderError>)
        ensures
            r matches Err(e) ==> e == ProviderError::NotImplemented,
    {
        Err(ProviderError::NotImplemented)
    }

    /// Releases the target. No concrete provider overrides this step,
    /// so it always reports the not-implemented error.
    fn exit(&self) -> (r: Result<ProviderResult<Run>, ProviderError>)
        ensures
            r == Err::<ProviderResult<Run>, ProviderError>(ProviderError::NotImplemented),
    {
        Err(ProviderError::NotImplemented)
    }

    /// The status line `run` reports for this provider's kind.
    fn status_line(&self) -> (s: &'static str)
        ensures
            s@ == status_text(self.kind()),
    ;
}

/// Configures one user account.
#[derive(Clone, Copy, Debug, PartialEq, Eq, Structural)]
pub struct UserProvider {}

impl Provider for UserProvider {
    open spec fn kind(&self) -> ResourceKind {
        ResourceKind::User
    }

    fn run(&self) -> (r: Result<ProviderResult<Run>, ProviderError>)
        ensures
            r == Ok::<ProviderResult<Run>, ProviderError>(ProviderResult::Success(Run {})),
    {
        Ok(ProviderResult::Success(Run {}))
    }

    fn status_line(&self) -> (s: &'static str) {
        "configuring user"
    }
}

/// Configures one group.
#[derive(Clone, Copy, Debug, PartialEq, Eq, Structural)]
pub struct GroupProvider {}

impl Provider for GroupProvider {
    open spec fn kind(&self) -> ResourceKind {
        ResourceKind::Group
    }

    fn run(&self) -> (r: Result<ProviderResult<Run>, ProviderError>)
        ensures
            r == Ok::<ProviderResult<Run>, ProviderError>(ProviderResult::Success(Run {})),
    {
        Ok(ProviderResult::Success(Run {}))
    }

    fn status_line(&self) -> (s: &'static str) {
        "configure group"
    }
}

/// Configures one file.
#[derive(Clone, Copy, Debug, PartialEq, Eq, Structural)]
pub struct FileProvider {}

impl Provider for FileProvider {
    open spec fn kind(&self) -> ResourceKind {
        ResourceKind::File
    }

    fn run(&self) -> (r: Result<ProviderResult<Run>, ProviderError>)
        ensures
            r == Ok::<ProviderResult<Run>, ProviderError>(ProviderResult::Success(Run {})),
    {
        Ok(ProviderResult::Success(Run {}))
    }

    fn status_line(&self) -> (s: &'static str) {
        "configure file"
    }
}

/// A provider of any of the three kinds, as the registry's builders
/// hand them out. The set of concrete providers is closed, so a tagged
/// variant stands in for dynamic dispatch.
#[derive(Clone, Copy, Debug, PartialEq, Eq, Structural)]
pub enum BuiltProvider {
    User(UserProvider),
    Group(GroupProvider),
    File(FileProvider),
}

impl Provider for BuiltProvider {
    open spec fn kind(&self) -> ResourceKind {
        match self {
            BuiltProvider::User(_) => ResourceKind::User,
            BuiltProvider::Group(_) => ResourceKind::Group,
            BuiltProvider::File(_) => ResourceKind::File,
        }
    }

    fn run(&self) -> (r: Result<ProviderResult<Run>, ProviderError>)
        ensures
            r == Ok::<ProviderResult<Run>, ProviderError>(ProviderResult::Success(Run {})),
    {
        match self {
            BuiltProvider::User(p) => p.run(),
            BuiltProvider::Group(p) => p.run(),
            BuiltProvider::File(p) => p.run(),
        }
    }

    fn status_line(&self) -> (s: &'static str) {
        match self {
            BuiltProvider::User(p) => p.status_line(),
            BuiltProvider::Group(p) => p.status_line(),
            BuiltProvider::File(p) => p.status_line(),
        }
    }
}

/// Status lines are distinguishable per kind: two distinct kinds never
/// share a line.
pub proof fn lemma_status_lines_distinct(k1: ResourceKind, k2: ResourceKind)
    requires
        k1 != k2,
    ensures
        status_text(k1) != status_text(k2),
{
    reveal_strlit("configuring user");
    reveal_strlit("configure group");
    reveal_strlit("configure file");
    assert(status_text(ResourceKind::User).len() == 16);
    assert(status_text(ResourceKind::Group).len() == 15);
    assert(status_text(ResourceKind::File).len() == 14);
}

/// A status line is never mistaken for an outcome line: it differs
/// from both lines the driver prints for a lifecycle outcome, so each
/// provider's report carries its status text exactly once.
pub proof fn lemma_status_line_is_no_outcome_line(k: ResourceKind)
    ensures
        status_text(k) != "success"@,
        status_text(k) != "not implemented"@,
{
    reveal_strlit("configuring user");
    reveal_strlit("configure group");
    reveal_strlit("configure file");
    reveal_strlit("success");
    reveal_strlit("not implemented");
    assert("success"@.len() == 7);
    assert("not implemented"@.len() == 15);
    match k {
        ResourceKind::User => {
            assert(status_text(k).len() == 16);
        },
        ResourceKind::Group => {
            assert(status_text(k).len() == 15);
            assert(status_text(k)[0] != "not implemented"@[0]);
        },
        ResourceKind::File => {
            assert(status_text(k).len() == 14);
        },
    }
}

/// Each kind's status line names its kind: the registry key occurs in
/// the line as a contiguous run of characters.
pub open spec fn text_mentions(hay: Seq<char>, needle: Seq<char>) -> bool {
    exists|i: int|
        0 <= i && i + needle.len() <= hay.len() && #[trigger] hay.subrange(i, i + needle.len())
            == needle
}

/// The status line of every kind mentions that kind's registry key.
pub proof fn lemma_status_line_mentions_kind(k: ResourceKind)
    ensures
        text_mentions(status_text(k), crate::kind::kind_name(k)),
{
    reveal_strlit("configuring user");
    reveal_strlit("configure group");
    reveal_strlit("configure file");
    reveal_strlit("user");
    reveal_strlit("group");
    reveal_strlit("file");
    let hay = status_text(k);
    let needle = crate::kind::kind_name(k);
    match k {
        ResourceKind::User => {
            assert(hay.subrange(12, 12 + needle.len() as int) =~= needle);
        },
        ResourceKind::Group => {
            assert(hay.subrange(10, 10 + needle.len() as int) =~= needle);
        },
        ResourceKind::File => {
            assert(hay.subrange(10, 10 + needle.len() as int) =~= needle);
        },
    }
}

} // verus!

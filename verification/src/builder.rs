//! The builder abstraction: a stateless factory that produces a fresh
//! provider instance on every call.

use vstd::prelude::*;

use crate::kind::ResourceKind;
use crate::provider::BuiltProvider;
use crate::provider::FileProvider;
use crate::provider::GroupProvider;
use crate::provider::Provider;
use crate::provider::UserProvider;

verus! {

/// A factory for providers of one resource kind. Building always
/// succeeds and always yields the same value, `self.built()`: a
/// builder holds no provider state, so successive calls hand out
/// independent, identically initialized instances.
pub trait ProviderBuilder: Sized {
    /// The concrete provider type this builder produces.
    type Output: Provider;

    /// The one value every `build` call produces.
    spec fn built(&self) -> Self::Output;

    /// Produces a fresh provider instance.
    fn build(&self) -> (p: Self::Output)
        ensures
            p == self.built(),
    ;
}

/// Builds `UserProvider` instances.
#[derive(Clone, Copy, Debug, PartialEq, Eq, Structural)]
pub struct UserBuilder;

impl UserBuilder {
    pub fn new() -> (b: Self)
        ensures
            b == UserBuilder,
    {
        Self
    }
}

impl ProviderBuilder for UserBuilder {
    type Output = UserProvider;

    open spec fn built(&self) -> UserProvider {
        UserProvider {  }
    }

    fn build(&self) -> (p: UserProvider) {
        UserProvider {  }
    }
}

/// Builds `GroupProvider` instances.
#[derive(Clone, Copy, Debug, PartialEq, Eq, Structural)]
pub struct GroupBuilder;

impl GroupBuilder {
    pub fn new() -> (b: Self)
        ensures
            b == GroupBuilder,
    {
        Self
    }
}

impl ProviderBuilder for GroupBuilder {
    type Output = GroupProvider;

    open spec fn built(&self) -> GroupProvider {
        GroupProvider {  }
    }

    fn build(&self) -> (p: GroupProvider) {
        GroupProvider {  }
    }
}

/// Builds `FileProvider` instances.
#[derive(Clone, Copy, Debug, PartialEq, Eq, Structural)]
pub struct FileBuilder;

impl FileBuilder {
    pub fn new() -> (b: Self)
        ensures
            b == FileBuilder,
    {
        Self
    }
}

impl ProviderBuilder for FileBuilder {
    type Output = FileProvider;

    open spec fn built(&self) -> FileProvider {
        FileProvider {  }
    }

    fn build(&self) -> (p: FileProvider) {
        FileProvider {  }
    }
}

/// A builder of any of the three kinds, as the registry stores them.
/// The set of concrete builders is closed, so a tagged variant stands
/// in for dynamic dispatch.
#[derive(Clone, Copy, Debug, PartialEq, Eq, Structural)]
pub enum RegisteredBuilder {
    User(UserBuilder),
    Group(GroupBuilder),
    File(FileBuilder),
}

impl RegisteredBuilder {
    /// The kind whose providers this builder produces.
    pub open spec fn kind(&self) -> ResourceKind {
        match self {
            RegisteredBuilder::User(_) => ResourceKind::User,
            RegisteredBuilder::Group(_) => ResourceKind::Group,
            RegisteredBuilder::File(_) => ResourceKind::File,
        }
    }
}

impl ProviderBuilder for RegisteredBuilder {
    type Output = BuiltProvider;

    open spec fn built(&self) -> BuiltProvider {
        match self {
            RegisteredBuilder::User(b) => BuiltProvider::User(b.built()),
            RegisteredBuilder::Group(b) => BuiltProvider::Group(b.built()),
            RegisteredBuilder::File(b) => BuiltProvider::File(b.built()),
        }
    }

    fn build(&self) -> (p: BuiltProvider) {
        match self {
            RegisteredBuilder::User(b) => BuiltProvider::User(b.build()),
            RegisteredBuilder::Group(b) => BuiltProvider::Group(b.build()),
            RegisteredBuilder::File(b) => BuiltProvider::File(b.build()),
        }
    }
}

/// The builder registered for a kind, as `build_registry` seeds it.
pub open spec fn builder_for(k: ResourceKind) -> RegisteredBuilder {
    match k {
        ResourceKind::User => RegisteredBuilder::User(UserBuilder),
        ResourceKind::Group => RegisteredBuilder::Group(GroupBuilder),
        ResourceKind::File => RegisteredBuilder::File(FileBuilder),
    }
}

/// A registered builder produces a provider of its own kind.
pub proof fn lemma_built_matches_kind(b: RegisteredBuilder)
    ensures
        b.built().kind() == b.kind(),
{
}

/// Building is idempotent: any two providers obtained from the same
/// builder are the same value, so driving one through its lifecycle
/// cannot distinguish it from the other.
pub proof fn lemma_build_deterministic<B: ProviderBuilder>(b: &B, p1: B::Output, p2: B::Output)
    requires
        p1 == b.built(),
        p2 == b.built(),
    ensures
        p1 == p2,
{
}

} // verus!

//! Ordered lifecycle execution. A session pairs a provider with the
//! phase it has reached, so the steps can only be invoked in the order
//! `init`, `run`, `exit`, and each exactly once.

use vstd::prelude::*;

use crate::outcome::Init;
use crate::outcome::ProviderError;
use crate::outcome::ProviderResult;
use crate::outcome::Run;
use crate::provider::status_text;
use crate::provider::BuiltProvider;
use crate::provider::Provider;

verus! {

/// How far through the lifecycle a session has come.
#[derive(Clone, Copy, Debug, PartialEq, Eq, Structural)]
pub enum LifecyclePhase {
    Created,
    Initialized,
    Ran,
    Exited,
}

/// One provider being driven through its lifecycle. The phase moves
/// `Created -> Initialized -> Ran -> Exited`, one step per call; a call
/// out of order is a programming error the contracts rule out.
pub struct ProviderSession {
    provider: BuiltProvider,
    phase: LifecyclePhase,
}

impl ProviderSession {
    /// The provider this session drives. It never changes over the
    /// session's life.
    pub closed spec fn provider(&self) -> BuiltProvider {
        self.provider
    }

    /// The phase this session has reached.
    pub closed spec fn phase(&self) -> LifecyclePhase {
        self.phase
    }

    /// Opens a session on a freshly built provider.
    pub fn new(provider: BuiltProvider) -> (s: Self)
        ensures
            s.provider() == provider,
            s.phase() == LifecyclePhase::Created,
    {
        Self { provider, phase: LifecyclePhase::Created }
    }

    /// The status line of the provider under this session.
    pub fn status_line(&self) -> (s: &'static str)
        ensures
            s@ == status_text(self.provider().kind()),
    {
        self.provider.status_line()
    }

    /// First step: prepares the target. No concrete provider
    /// implements it, so it reports the not-implemented error.
    pub fn init(&mut self) -> (r: Result<ProviderResult<Init>, ProviderError>)
        requires
            old(self).phase() == LifecyclePhase::Created,
        ensures
            final(self).phase() == LifecyclePhase::Initialized,
            final(self).provider() == old(self).provider(),
            r == Err::<ProviderResult<Init>, ProviderError>(ProviderError::NotImplemented),
    {
        self.phase = LifecyclePhase::Initialized;
        self.provider.init()
    }

    /// Second step: applies the configuration. Every concrete provider
    /// implements it, and it succeeds.
    pub fn run(&mut self) -> (r: Result<ProviderResult<Run>, ProviderError>)
        requires
            old(self).phase() == LifecyclePhase::Initialized,
        ensures
            final(self).phase() == LifecyclePhase::Ran,
            final(self).provider() == old(self).provider(),
            r == Ok::<ProviderResult<Run>, ProviderError>(ProviderResult::Success(Run {  })),
    {
        self.phase = LifecyclePhase::Ran;
        self.provider.run()
    }

    /// Last step: releases the target. No concrete provider implements
    /// it, so it reports the not-implemented error.
    pub fn exit(&mut self) -> (r: Result<ProviderResult<Run>, ProviderError>)
        requires
            old(self).phase() == LifecyclePhase::Ran,
        ensures
            final(self).phase() == LifecyclePhase::Exited,
            final(self).provider() == old(self).provider(),
            r == Err::<ProviderResult<Run>, ProviderError>(ProviderError::NotImplemented),
    {
        self.phase = LifecyclePhase::Exited;
        self.provider.exit()
    }
}

} // verus!

//! A minimal configuration-management skeleton: a registry maps named
//! resource kinds (`user`, `group`, `file`) to builders, each builder
//! constructs a provider, and a driver walks every provider through a
//! three-step lifecycle (`init`, `run`, `exit`), collecting one line of
//! report text per step.

pub mod builder;
pub mod driver;
pub mod kind;
pub mod lifecycle;
pub mod outcome;
pub mod provider;
pub mod registry;

pub use builder::FileBuilder;
pub use builder::GroupBuilder;
pub use builder::ProviderBuilder;
pub use builder::RegisteredBuilder;
pub use builder::UserBuilder;
pub use driver::drive;
pub use driver::drive_provider;
pub use kind::ResourceKind;
pub use lifecycle::LifecyclePhase;
pub use lifecycle::ProviderSession;
pub use outcome::Init;
pub use outcome::ProviderError;
pub use outcome::ProviderResult;
pub use outcome::Run;
pub use outcome::RunStatus;
pub use provider::BuiltProvider;
pub use provider::FileProvider;
pub use provider::GroupProvider;
pub use provider::Provider;
pub use provider::UserProvider;
pub use registry::build_registry;
pub use registry::Registry;

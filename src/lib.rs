//! A dependency-injection container: a registry that maps a type, optionally
//! qualified by a name, to a provider that produces values of that type,
//! either freshly on each request (scoped) or once and shared (singleton).

pub mod container;
pub mod erased;
pub mod error;
pub mod fruits;
pub mod global;
pub mod injectable;
pub mod key;
pub mod late_init;
pub mod laws;
pub mod provider;
pub mod resolved;
pub mod scoped;
pub mod shared;

pub use container::{Container, Singleton};
pub use error::{MissingDependency, Type};
pub use global::{GlobalContainer, InitContainerError, InitContainerErrorKind};
pub use injectable::Inject;
pub use key::{InjectionKey, KeyView};
pub use late_init::LateInit;
pub use provider::{Provider, ProviderKind};
pub use resolved::Resolved;
pub use scoped::Scoped;
pub use shared::Shared;

//! The execution kernel of an entity-component-system runtime.
//!
//! A *system* is a user function bundled with a declaration of the global
//! resources and entity components it reads or writes. A scheduler reads the
//! declarations to pick systems that may run side by side, and then drives
//! each system through [`FuncSystem::prepare`] and [`FuncSystem::run_unsafe`].
//!
//! The pieces, leaves first:
//!
//! - [`resource`]: the resource table, and what a set of accessors declares;
//! - [`accessor`]: the read and write accessors a system's function receives;
//! - [`access`]: declared access, and when two declarations conflict;
//! - [`archetype`]: the cache of archetypes a system's queries match;
//! - [`command`]: worlds, and the per-world buffers of deferred commands;
//! - [`subworld`]: the world narrowed to what a system declared;
//! - [`system`]: the runnable system itself;
//! - [`uniforms`]: how an entity's transform is described to shaders.
//!
//! Verified callers get exact contracts throughout. In particular, a run
//! changes no resource that the system did not declare for writing, and the
//! contract of a run names the calls it makes, so that what the system's
//! function ensures carries over to the resource table.

pub mod access;
pub mod accessor;
pub mod archetype;
pub mod command;
pub mod resource;
pub mod subworld;
pub mod system;
pub mod uniforms;

pub use access::Access;
pub use access::SystemAccess;
pub use accessor::PreparedRead;
pub use accessor::PreparedWrite;
pub use accessor::Resource;
pub use accessor::ResourceMut;
pub use archetype::ArchetypeAccess;
pub use archetype::ArchetypeSet;
pub use command::CommandBuffers;
pub use resource::ResourceAccess;
pub use resource::ResourceSet;
pub use resource::ResourceTypeId;
pub use resource::Resources;
pub use subworld::SubWorld;
pub use system::FuncSystem;
pub use system::FuncSystemFn;
pub use system::FuncSystemFnWrapper;
pub use system::QuerySet;
pub use system::SystemId;
pub use system::SystemState;

//! Device-side bookkeeping of a GPU abstraction layer.
//!
//! A [`device::GPUDevice`] hands out resource handles, builds the creation
//! requests that go to the backend, and attributes the backend's asynchronous
//! replies to a stack of nested error scopes.

pub mod backend;
pub mod bindings;
pub mod color_targets;
pub mod convert;
pub mod device;
pub mod error_scope;
pub mod flags;
pub mod layout_cache;
pub mod resources;
pub mod scope_trace;

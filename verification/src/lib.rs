//! Opaque handles for objects that live behind an API boundary.
//!
//! A handle is one address-sized value. It names an object stored in a heap
//! that owns it, and `VK_NULL_HANDLE` names no object at all. Plain handles
//! are tracked by a diagnostics registry; dispatchable handles name objects
//! that carry the loader's magic tag in front of their payload.

pub mod arena;
pub mod boxed;
pub mod dispatch;
pub mod handle;
pub mod history;
pub mod registry;
pub mod render;

pub use crate::dispatch::DispatchHandle;
pub use crate::dispatch::DispatchHeap;
pub use crate::dispatch::DisplatchHandleAllocation;
pub use crate::dispatch::ICD_LOADER_MAGIC;
pub use crate::handle::Handle;
pub use crate::handle::HandleAllocation;
pub use crate::handle::Heap;
pub use crate::handle::VK_NULL_HANDLE;
pub use crate::registry::Registry;

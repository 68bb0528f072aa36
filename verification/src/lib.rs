//! Shared-ownership handles for single-threaded environments.
//!
//! The one type here, [`SharedPtr`], is a reference-counted handle to an
//! immutable value: cloning a handle shares the cell instead of copying the
//! value, and the value is dropped together with the last handle.

pub mod sync_ptr;

pub use sync_ptr::SharedPtr;

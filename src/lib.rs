//! Zero-cost wrappers that give instances of another type an identity of
//! their own: `Handle<T>` holds a `T` by value, `RCHandle<T>` holds a
//! non-null pointer to a `T` that lives in memory owned elsewhere.
pub mod handle;
pub mod memory;
pub mod ptr;
pub mod rc_handle;

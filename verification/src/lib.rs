//! A reusable heap slot for a cancellable, resumable task.
//!
//! The container owns one logical allocation together with a layout
//! descriptor, and lets its caller replace the task being driven inside that
//! allocation. When the replacement task has the same memory footprint as the
//! task it replaces, the allocation is reused in place; otherwise the
//! container is rebuilt around a fresh allocation. The in-place replacement
//! protocol keeps the container valid even when the outgoing task's teardown
//! faults: the fault is captured, the new task is installed first, and the
//! fault is surfaced only afterwards.

pub mod boxed;
pub mod laws;
pub mod layout;
pub mod task;

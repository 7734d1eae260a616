//! Core of a lightweight-process runtime.
//!
//! A spawned computation lives in one arena slot holding a control header
//! (lifecycle flags and a reference count), the stack metadata, and the
//! future/output storage.  Two owning handles refer to the slot: a runnable
//! handle used to schedule, run or cancel the process, and an output handle
//! used to retrieve the eventual result.  A load-statistics module keeps a
//! per-core queue-depth snapshot and republishes its mean for placement
//! decisions.

pub mod lightproc;
pub mod load_balancer;
pub mod proc_data;
pub mod proc_handle;
pub mod proc_stack;
pub mod proc_table;
pub mod recoverable_handle;

//! Event packets of a shared-memory mailbox between an application core and a
//! co-processor: their byte layout, their classification and measurement, and
//! the handle that owns one packet until its buffer goes back to the pool.

pub mod consts;
pub mod error;
pub mod layout;
pub mod classifier;
pub mod evt;
pub mod lifecycle;

//! Identity-tracking core of a graphics-API proxy layer.
//!
//! A proxy layer substitutes drop-in wrapper objects for the objects handed
//! out by a real graphics implementation.  The code here is the mechanism
//! those wrappers share: a bidirectional table from the identity of an
//! original object to the identity of its wrapper and back
//! ([`com_mapping_tracker`]), a reference-counted, lock-guarded handle that
//! serializes access to one such table per session ([`device_context`]), and
//! a helper for COM-style output parameters ([`try_out_param`]).
//!
//! Identities are opaque pointer-sized values; the core never dereferences
//! them and never owns the objects they name, so the table cannot form the
//! reference cycles that would defeat reference-counted cleanup.

pub mod com_error;
pub mod com_mapping_tracker;
pub mod device_context;
pub mod try_out_param;

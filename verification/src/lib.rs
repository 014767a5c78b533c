//! A keyed asynchronous cell: a primitive that binds a derived,
//! change-tracked key to a value obtained by an asynchronous lookup.
//!
//! The cell re-dispatches the lookup only when the key changes, tags every
//! dispatch with a monotonically increasing generation, and accepts a
//! completed result only while its generation is still the latest one, so a
//! slow stale lookup can never overwrite a newer value.  The reactive
//! runtime that triggers the transitions, and the I/O that the lookups
//! perform, live outside this crate; the cell itself is a verified state
//! machine driven by plain events.

pub mod cell;
pub mod laws;
pub mod lookup;

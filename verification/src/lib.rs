//! A small generic accumulation library.
//!
//! A [`Welder`] wraps a glue value and a growing destination container.
//! Elements are appended one at a time or in batches, with the glue
//! interleaved according to a placement policy (none, left, right, or
//! both sides of each element), and the finished container is taken
//! back with [`Welder::weld`].
//!
//! Destinations are containers that can start empty and accept elements
//! at their end; their behaviour is captured by the [`dest::Dest`] and
//! [`dest::Accept`] capability traits, and every operation's contract is
//! stated over the sequence of atoms the destination has accumulated.

pub mod dest;
pub mod laws;
pub mod model;
pub mod welder;

pub use crate::dest::Accept;
pub use crate::dest::Dest;
pub use crate::dest::Duplicate;
pub use crate::welder::Welder;

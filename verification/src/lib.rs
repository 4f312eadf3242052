//! A lifetime-safe, read-only view layer over one element of a demuxed media
//! container's stream table.
//!
//! The owning container context holds an array of stream descriptors; a
//! [`stream::Stream`] borrows one slot of that table and exposes typed,
//! non-caching accessors for the descriptor's metadata: identity, timing,
//! frame statistics, disposition flags, discard policy, frame rates, the
//! display aspect ratio derived from the coded dimensions, and the attached
//! side data. Nothing here owns, mutates or copies the underlying descriptor.

pub mod aspect;
pub mod desc;
pub mod discard;
pub mod disposition;
pub mod rational;
pub mod side_data;
pub mod stream;

//! Choosing a storage partition and deciding whether to mount or unmount it.
//!
//! The partition forest is filtered, the partitions that may be offered are
//! rendered as labels, a chosen label is resolved back to its partition, and
//! the partition's mount state decides the single action to take.

pub mod partition;
pub mod text;
pub mod filter;
pub mod render;
pub mod select;
pub mod dispatch;
pub mod session;

//! The fused broadcasted reduction: a kernel that reduces the rows of a tensor, block after
//! block, and then runs an elementwise block over the rows that were reduced.

pub mod calls;
pub mod expr;
pub mod fuse;
pub mod kernel;
pub mod layout;
pub mod laws;
pub mod sharing;
pub mod workers;

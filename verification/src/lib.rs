//! A market depth (order book) keyed by integer price ticks, stored in hash
//! maps, that tracks the latest best bid and best ask as feeds arrive.

pub mod types;
pub mod scan;
pub mod fuse;
pub mod laws;

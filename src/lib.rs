//! A heap shared between cooperating processes: a size-classed bump allocator
//! over shared-memory segments, whose allocations are named by packed 64-bit
//! addresses that any process of the arena can resolve.
pub mod size_class;
pub mod address;
pub mod cursor;
pub mod bump;
pub mod registry;
pub mod bootstrap;
pub mod shared_box;
pub mod name;

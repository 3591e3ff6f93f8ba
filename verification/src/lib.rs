//! A heap-allocated, fixed-length array whose element count is chosen at run
//! time. The array never grows or shrinks after construction; callers get
//! checked and unchecked indexed access, zero-filled or unoccupied fresh
//! storage, construction from a sequence or from a contiguous buffer, and a
//! consuming iterator that moves the elements out one slot at a time.

pub mod error;
pub mod runtime_array;
pub mod zeroable;

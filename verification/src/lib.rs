//! A struct-of-arrays container: several independently typed columns kept in
//! lockstep under one logical length and capacity, with checked growth,
//! order-agnostic removal, range views and forward iteration.

pub mod data;
pub mod error;
pub mod index;
pub mod iter;
pub mod slice;
pub mod vec;

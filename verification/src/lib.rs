//! A durable store of concert tickets: an identifier allocator and a keyed
//! map of ticket records, with validated mutation and a one-way booking
//! transition.

pub mod allocator;
pub mod laws;
pub mod model;
pub mod stable;
pub mod store;
pub mod ticket;

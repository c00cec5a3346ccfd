//! A small benchmark service core: an item table with validated CRUD, synthetic
//! CPU and memory workloads, and the response shapes of each endpoint.

pub mod clock;
pub mod price;
pub mod item;
pub mod stress;
pub mod store;
pub mod handlers;

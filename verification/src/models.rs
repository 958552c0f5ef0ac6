//! The records the service stores and the requests it accepts.

pub mod data;

pub use data::{InventoryPayload, Products, StockUpdate};

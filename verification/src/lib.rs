//! The decision core of an inventory service: payload validation, bounded
//! stock adjustment, bearer-token classification and role authorization,
//! together with the replies each request handler gives.

pub mod controllers;
pub mod middleware;
pub mod models;
pub mod reply;
pub mod routes;
pub mod stock;
pub mod store;

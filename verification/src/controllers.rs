//! The decisions of the request handlers. A handler that only reads decides
//! once, on what the store gave. A handler that writes decides in turns: each
//! turn takes the request and what happened last, and names the next thing to
//! ask of the store or the reply to give.

pub mod delete_inventory_controller;
pub mod inventory_controller;
pub mod update_inventory_controller;

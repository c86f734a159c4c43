//! A write-back buffer for incoming orders and the statements that persist
//! each order into its four relations.

pub mod cli;
pub mod gateway;
pub mod order;
pub mod routes;
pub mod state;
pub mod store;

//! The recap state kept outside the process: its keys, its rules, and a store.

pub mod commands;
pub mod keys;
pub mod recap_state;
pub mod recap_store;
pub mod store_laws;

pub mod config;
pub mod container;
pub mod error;
pub mod state;
pub mod store;

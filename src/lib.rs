pub mod auth;
pub mod contract;
pub mod laws;
pub mod state;

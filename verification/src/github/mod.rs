pub mod auth;
pub mod client;
pub mod models;
pub mod laws;
pub mod response;
pub mod status;

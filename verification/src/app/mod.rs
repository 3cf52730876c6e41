pub mod edit;
pub mod event;
pub mod state;
pub mod key_laws;
pub mod laws;

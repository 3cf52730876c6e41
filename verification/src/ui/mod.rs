pub mod laws;
pub mod view;

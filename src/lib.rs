pub mod config;
pub mod document;
pub mod loader;
pub mod severity;
pub mod laws;

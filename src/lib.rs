pub mod registry;
pub mod selector;
pub mod laws;
pub mod request;
pub mod rewrite;
pub mod health;
pub mod coordinator;

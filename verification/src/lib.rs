pub mod engine;
pub mod layout;
pub mod secret;

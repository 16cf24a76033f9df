pub mod engine;
pub mod event;
pub mod policy;
pub mod render;
pub mod wire;

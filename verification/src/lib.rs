pub mod codec;
pub mod config;
pub mod engine;
pub mod port;
pub mod sender;

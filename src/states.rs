pub mod codec;
pub mod config;

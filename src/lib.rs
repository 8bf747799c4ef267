pub mod cache_manager;
pub mod command;
pub mod download;
pub mod encoder;
pub mod frame;
pub mod pipeline;
pub mod text;
pub mod workspace;

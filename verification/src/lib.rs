pub mod config;
pub mod events;
pub mod frame;
pub mod images;
pub mod program;
pub mod programs;
pub mod render;
pub mod utils;

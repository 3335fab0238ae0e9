//! The application's configuration, and the steps that bring its file about.

pub mod config;
pub mod emby;

pub use config::Config;
pub use emby::EmbyConfig;

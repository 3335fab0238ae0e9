//! The endpoints the bot calls.

pub mod emby_api;

pub use emby_api::EmbyAPI;

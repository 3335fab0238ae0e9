//! The building blocks, one module each.

pub mod api;
pub mod config;
pub mod database;
pub mod logger;
pub mod network;
pub mod text;

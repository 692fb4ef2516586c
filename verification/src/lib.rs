pub mod auth;
pub mod config;
pub mod stats;
pub mod store;
pub mod strutil;
pub mod upload;

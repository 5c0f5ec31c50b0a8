pub mod config;
pub mod models;
pub mod templates;
pub mod text;
pub mod error;
pub mod json;
pub mod api;
pub mod render;

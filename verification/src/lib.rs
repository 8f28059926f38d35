//! Verified core of the Wikify web server.

pub mod api_keys;
pub mod auth;
pub mod cache;
pub mod config;
pub mod config_validator;
pub mod digest;
pub mod error;
pub mod handlers;
pub mod ids;
pub mod jwt;
pub mod keyed;
pub mod metrics;
pub mod openapi;
pub mod middleware;
pub mod permissions;
pub mod security;
pub mod server;
pub mod strings;
pub mod templates;
pub mod time;
pub mod users;
pub mod utoipa_render;
pub mod websocket;

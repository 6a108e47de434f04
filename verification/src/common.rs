pub mod app_state;
pub mod auth;
pub mod env_config;
pub mod ids;
pub mod text;

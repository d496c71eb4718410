pub mod bootstrap;
pub mod config;
pub mod error;
pub mod general;
pub mod logging;
pub mod middleware;
pub mod postgres;
pub mod redis;
pub mod state;
pub mod text;

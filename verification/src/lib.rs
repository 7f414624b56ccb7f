//! EasyVault core: the verified logic of a small secrets manager.
pub mod api;
pub mod audit;
pub mod clock;
pub mod config;
pub mod error;
pub mod text;
pub mod tls;
pub mod vault;
pub mod web;

pub mod address;
pub mod builder;
pub mod config;
pub mod controller;
mod ids;
pub mod laws;
pub mod messages;
pub mod pending;
pub mod protocol;

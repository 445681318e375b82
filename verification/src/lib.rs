//! Puddle: a client library for the Raindrop.io REST API, together with the
//! decisions and text rendering of its command-line front end.

pub mod text;
pub mod models;
pub mod pagination;
pub mod cli;
pub mod display;
pub mod views;
pub mod previews;
pub mod selection;
pub mod json;
pub mod http;
pub mod auth;
pub mod config;
pub mod client;
pub mod api;
pub mod commands;
pub mod setup;

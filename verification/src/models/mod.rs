//! The data that the API sends and receives.

pub mod common;
pub mod raindrops;
pub mod collections;
pub mod filters;
pub mod tags;
pub mod user;

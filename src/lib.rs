//! Pixel model and viewport core of a single-image viewer.

pub mod config;
pub mod datastore;
pub mod iop;
pub mod ui;
pub mod viewer;

//! Widgets of a terminal status dashboard and the two-phase
//! prepare / print protocol that lays them out.
pub mod config;
pub mod bar;
pub mod text;
pub mod line;
pub mod filesystem;
pub mod memory;
pub mod banner;
pub mod component;
pub mod dashboard;

//! Metrics aggregation and rendering for a terminal monitor that watches one
//! named process and its host.
//!
//! Each tick the surrounding program hands the library what its probes
//! returned. The library merges the readings into a [`snapshot::Snapshot`],
//! turns the snapshot into the lines of a transcript or the panels of a
//! dashboard, and decides after each tick whether the loop goes on.

pub mod text;
pub mod pattern;
pub mod logtail;
pub mod snapshot;
pub mod config;
pub mod render;
pub mod dashboard;
pub mod monitor;

//! Wallpaper rotation: fractal, solid-colour and photo-of-the-day sources,
//! colour themes and palettes, the wallpaper store's naming rules, and the
//! conversion of one frequency expression into the job-scheduling
//! vocabulary of systemd, launchd and the Windows Task Scheduler.
//!
//! The crate holds the decisions and the text handling; reading the clock,
//! the display or the network is left to the program that links it.

pub mod cli;
pub mod configuration;
pub mod orchestrator;
pub mod os_implementations;
mod random;
pub mod scan;
pub mod text;
pub mod themes;
pub mod wallpaper_generators;

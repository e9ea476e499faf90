//! Startup configuration of a single-window desktop shell.
//!
//! The shell shows one webview window whose chrome depends on the platform,
//! attaches an HTTP client plugin in every build and a logging plugin in debug
//! builds, and then hands control to the windowing framework. This crate
//! decides *what* is configured and in which order; applying the decisions to
//! a windowing framework is left to the caller.

pub mod plugins;
pub mod startup;
pub mod window;

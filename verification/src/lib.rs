//! Core logic of a system-tray power-mode monitor.
//!
//! The OS reports power-mode transitions as integer codes; the desktop theme
//! decides which icon set (black or white) is shown. This crate holds the
//! verified logic: decoding-result bookkeeping for the icon cache, theme
//! bucketing, tooltip formatting, the tray presenter's update rules, and the
//! UI event router's state machine. The unverifiable glue (OS callbacks,
//! channels, the tray-widget toolkit) lives outside and talks to this crate
//! through plain values.

pub mod bridge;
pub mod icon;
pub mod presenter;
pub mod router;
pub mod text;
pub mod theme;

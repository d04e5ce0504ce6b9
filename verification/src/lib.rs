//! RapidCap's capture logic: the capture state machine, region geometry,
//! output naming, settings validation, the bytes handed to the clipboard and
//! the FFmpeg command lines, with the panel's decisions and labels.

pub mod text;
pub mod state;
pub mod geometry;
pub mod naming;
pub mod settings;
pub mod clipboard;
pub mod recording;
pub mod image_file;
pub mod screenshot;
pub mod controller;
pub mod tray;
pub mod icons;
pub mod platform;
pub mod panel;
pub mod hud;
pub mod menu;
pub mod logs;
pub mod reactions;
pub mod avfoundation;

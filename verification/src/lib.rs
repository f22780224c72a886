//! Planning and decision logic of a HEIC/HEIF to JPEG/PNG converter.

pub mod text;
pub mod paths;
pub mod search;
pub mod convert;
pub mod context_menu;
pub mod platform;
pub mod cli;

//! TopBar core library: the formatting, parsing, state and layout logic
//! behind a macOS-style status bar, with its contracts proved by Verus.

pub mod text;
pub mod utils;
pub mod theme;
pub mod config;
pub mod icons;
pub mod hotkey;
pub mod modules;
pub mod effects;
pub mod tray;
pub mod search;
pub mod settings;
pub mod dropdown;
pub mod preview;
pub mod json;
pub mod quick_search;
pub mod pointer;
pub mod menus;
pub mod layout;

//! A status-notifier tray icon with its menu: the menu tree and the layout protocol that
//! serves it, the revision counter that announces changes, and a builder that gives
//! the icon and the menu only the capabilities a program supplies.

pub mod event_types;
pub mod layout;
pub mod menu;
pub mod notifier;
pub mod service;
pub mod tray;
pub mod utils;

pub use crate::tray::{tray, Tray};

//! Verified core of a tray translator: configuration defaults, engine
//! selection and request/reply handling, the phrasebook, tray and hotkey
//! decisions, and the step machine that drives one in-place translation.

pub mod text;
pub mod config;
pub mod translator;
pub mod engine;
pub mod hotkey;
pub mod input;
pub mod clipboard;
pub mod logger;
pub mod ui;
pub mod window;

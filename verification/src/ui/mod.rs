//! User-facing surfaces: toast texts and the tray icon.

pub mod notification;
pub mod tray;

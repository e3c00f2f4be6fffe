//! What the user sees and touches: the status-bar menu and the sound sets
//! it offers.

pub mod assets;
pub mod switches;
pub mod tray;

pub use assets::ensure_assets_exist;
pub use tray::{MenuEntry, MenuItem, MenuResponse, SwitchEntry, TrayIcon};

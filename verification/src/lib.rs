pub mod audio;
pub mod device_slot;
pub mod firmware;
pub mod foreground;
pub mod hid;
pub mod hotkeys;
pub mod profiles;
pub mod rgb;
pub mod text;
pub mod tray;
pub mod installer;

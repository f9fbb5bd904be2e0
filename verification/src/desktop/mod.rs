//! What the desktop is doing.
pub mod hyprland;

//! Compositor state and the logic shared by the sway and Hyprland backends.
pub mod hex;
pub mod hypr_ipc;
pub mod hyprland;
pub mod supervisor;
pub mod sway;
pub mod sway_ipc;
pub mod types;

pub mod bridge;
pub mod compositor;
pub mod config;
pub mod launcher;
pub mod layer_shell;
pub mod notifications;
pub mod services;
pub mod styling;
pub mod text;

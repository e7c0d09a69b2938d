//! Desktop services: what the audio, battery, brightness, media, network and power
//! widgets show and request.
pub mod audio;
pub mod battery;
pub mod brightness;
pub mod mpris;
pub mod network;
pub mod power;
pub mod widget_config;

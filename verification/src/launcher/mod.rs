//! The application launcher: desktop entries, fuzzy ranking, launch planning and its
//! surface.
pub mod desktop_entry;
pub mod search;
pub mod service;
pub mod surface;
pub mod types;
pub mod usage;

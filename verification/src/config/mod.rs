//! Configuration: the schema with its defaults, where the file lives, and which changes
//! to it reload it.
pub mod paths;
pub mod schema;
pub mod watch;

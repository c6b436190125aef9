pub mod appsdb;
pub mod config_object;
pub mod global;

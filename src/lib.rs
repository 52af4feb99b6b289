pub mod config;
pub mod driver;

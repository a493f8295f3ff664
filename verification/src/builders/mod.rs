//! Builders that put a preset together and hold it to rules before they
//! hand it out.

pub mod cargo_config_builder;
pub mod command_details_builder;
pub mod config;

pub use cargo_config_builder::CargoConfigBuilder;
pub use command_details_builder::CommandDetailsBuilder;
pub use config::ConfigBuilder;

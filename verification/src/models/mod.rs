//! The configuration data model.

pub mod cargo_context;
pub mod cargo_runner;
pub mod command_config;
pub mod command_details;
pub mod command_type;
pub mod config;
pub mod context;
pub mod env_value;

pub use cargo_context::{CargoContext, CommandContext, ContextType};
pub use cargo_runner::CargoRunner;
pub use command_config::CommandConfig;
pub use command_details::CommandDetails;
pub use command_type::CommandType;
pub use config::Config;
pub use context::{Commands, Context};
pub use env_value::EnvValue;

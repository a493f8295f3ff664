//! Named command presets grouped by invocation context: the data model, the
//! merge engine, default-key resolution, and builders that hold a new preset
//! to validation rules.
//!
//! A [`models::Config`] holds one table of presets per context. Two
//! configurations are merged preset by preset and field by field, the
//! incoming one winning. A preset is put together by one of the
//! [`builders`] and passes the rules attached before it is handed out.
//! Nothing in this crate touches a file or the network: [`store`] decides
//! what has to happen to the configuration file, and the caller does it.

pub mod builders;
pub mod collections;
pub mod errors;
pub mod helpers;
pub mod models;
pub mod store;
pub mod validation;
pub mod validator;

pub use builders::{CargoConfigBuilder, CommandDetailsBuilder, ConfigBuilder};

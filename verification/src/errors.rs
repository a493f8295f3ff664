//! What can go wrong while a preset is built or a default is chosen.

use vstd::prelude::*;
use vstd::string::StringExecFns;

verus! {

/// A rule that a candidate preset or a request broke.
#[derive(Debug)]
pub enum ConfigError {
    /// A field that must be given is missing or empty; the payload says which.
    MissingConfigFields(String),
    /// The preset name in the payload is not a key of the context's table.
    ConfigKeyNotFound(String),
    /// The sub-command is not among the allowed ones; the payload is the
    /// message.
    InvalidSubCommand(String),
    /// An environment-variable name breaks the naming rule.
    InvalidEnvFormat,
    /// A pre-command names the preset itself or an unknown preset; the
    /// payload is the message.
    InvalidPreCommand(String),
    /// The command type is not the one the context asks for; the payload is
    /// the message.
    CommandType(String),
}

/// A [`ConfigError`] with each payload as its text.
pub ghost enum ConfigErrorView {
    MissingConfigFields(Seq<char>),
    ConfigKeyNotFound(Seq<char>),
    InvalidSubCommand(Seq<char>),
    InvalidEnvFormat,
    InvalidPreCommand(Seq<char>),
    CommandType(Seq<char>),
}

impl View for ConfigError {
    type V = ConfigErrorView;

    open spec fn view(&self) -> ConfigErrorView {
        match self {
            ConfigError::MissingConfigFields(what) => ConfigErrorView::MissingConfigFields(what@),
            ConfigError::ConfigKeyNotFound(key) => ConfigErrorView::ConfigKeyNotFound(key@),
            ConfigError::InvalidSubCommand(message) => ConfigErrorView::InvalidSubCommand(
                message@,
            ),
            ConfigError::InvalidEnvFormat => ConfigErrorView::InvalidEnvFormat,
            ConfigError::InvalidPreCommand(message) => ConfigErrorView::InvalidPreCommand(
                message@,
            ),
            ConfigError::CommandType(message) => ConfigErrorView::CommandType(message@),
        }
    }
}

/// The text shown for an error.
pub open spec fn message_of(error: ConfigErrorView) -> Seq<char> {
    match error {
        ConfigErrorView::MissingConfigFields(what) => "Missing Config Fields: "@ + what,
        ConfigErrorView::ConfigKeyNotFound(key) => "The config key '"@ + key
            + "' does not exist."@,
        ConfigErrorView::InvalidSubCommand(message) => message,
        ConfigErrorView::InvalidEnvFormat => "ENV define is not ALL_CAPS"@,
        ConfigErrorView::InvalidPreCommand(message) => message,
        ConfigErrorView::CommandType(message) => message,
    }
}

impl ConfigError {
    /// The text shown for this error.
    pub fn message(&self) -> (text: String)
        ensures
            text@ == message_of(self@),
    {
        match self {
            ConfigError::MissingConfigFields(what) => {
                let mut text = String::from_str("Missing Config Fields: ");
                text.append(what.as_str());
                text
            },
            ConfigError::ConfigKeyNotFound(key) => {
                let mut text = String::from_str("The config key '");
                text.append(key.as_str());
                text.append("' does not exist.");
                text
            },
            ConfigError::InvalidSubCommand(message) => message.clone(),
            ConfigError::InvalidEnvFormat => String::from_str("ENV define is not ALL_CAPS"),
            ConfigError::InvalidPreCommand(message) => message.clone(),
            ConfigError::CommandType(message) => message.clone(),
        }
    }
}

} // verus!

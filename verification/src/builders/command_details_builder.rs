//! The builder of a preset from a command type and a command.

use vstd::prelude::*;
use vstd::string::StringExecFns;
use crate::collections::{StringMap, StringSet};
use crate::errors::{ConfigError, ConfigErrorView};
use crate::models::command_config::workspace_folder;
use crate::models::command_details::{blank_details, CommandDetails, CommandDetailsView};
use crate::models::command_type::CommandType;
use crate::validation::{Chain, NoValidator, ValidateCommandDetails};

verus! {

/// A draft of a preset and the validators that it has to pass.
pub struct CommandDetailsBuilder<V: ValidateCommandDetails = NoValidator> {
    /// The preset as it stands.
    pub draft: CommandDetails,
    /// The validators, chained in the order in which they were attached.
    pub validators: V,
}

impl CommandDetailsBuilder<NoValidator> {
    /// A builder for a preset of `command_type` that runs `command` in the
    /// workspace folder, with nothing else set and no validators.
    pub fn new(command_type: CommandType, command: &str) -> (builder: Self)
        ensures
            builder.draft@ == (CommandDetailsView {
                command_type,
                command: command@,
                working_directory: workspace_folder(),
                ..blank_details()
            }),
    {
        let mut draft = CommandDetails::default();
        draft.command_type = command_type;
        draft.command = String::from_str(command);
        draft.working_directory = String::from_str("${workspaceFolder}");
        CommandDetailsBuilder { draft, validators: NoValidator }
    }
}

impl<V: ValidateCommandDetails> CommandDetailsBuilder<V> {
    /// Attaches `validator` behind the validators attached so far.
    pub fn add_validator<T: ValidateCommandDetails>(self, validator: T) -> (builder:
        CommandDetailsBuilder<Chain<V, T>>)
        ensures
            builder.draft == self.draft,
            builder.validators == (Chain { first: self.validators, second: validator }),
    {
        CommandDetailsBuilder {
            draft: self.draft,
            validators: Chain { first: self.validators, second: validator },
        }
    }

    /// Sets the command type.
    pub fn command_type(self, command_type: CommandType) -> (builder: Self)
        ensures
            builder.draft == (CommandDetails { command_type, ..self.draft }),
            builder.validators == self.validators,
    {
        let mut builder = self;
        builder.draft.command_type = command_type;
        builder
    }

    /// Sets the command.
    pub fn command(self, command: &str) -> (builder: Self)
        ensures
            builder.draft.command@ == command@,
            builder.draft == (CommandDetails { command: builder.draft.command, ..self.draft }),
            builder.validators == self.validators,
    {
        let mut builder = self;
        builder.draft.command = String::from_str(command);
        builder
    }

    /// Sets the trailing arguments.
    pub fn params(self, params: &str) -> (builder: Self)
        ensures
            builder.draft.params@ == params@,
            builder.draft == (CommandDetails { params: builder.draft.params, ..self.draft }),
            builder.validators == self.validators,
    {
        let mut builder = self;
        builder.draft.params = String::from_str(params);
        builder
    }

    /// Sets the environment.
    pub fn env(self, env: StringMap<String>) -> (builder: Self)
        ensures
            builder.draft == (CommandDetails { env, ..self.draft }),
            builder.validators == self.validators,
    {
        let mut builder = self;
        builder.draft.env = env;
        builder
    }

    /// Says whether several instances may run at once.
    pub fn allow_multiple_instances(self, allow_multiple_instances: bool) -> (builder: Self)
        ensures
            builder.draft == (CommandDetails { allow_multiple_instances, ..self.draft }),
            builder.validators == self.validators,
    {
        let mut builder = self;
        builder.draft.allow_multiple_instances = allow_multiple_instances;
        builder
    }

    /// Sets the directory in which the process starts.
    pub fn working_directory(self, working_directory: &str) -> (builder: Self)
        ensures
            builder.draft.working_directory@ == working_directory@,
            builder.draft == (CommandDetails {
                working_directory: builder.draft.working_directory,
                ..self.draft
            }),
            builder.validators == self.validators,
    {
        let mut builder = self;
        builder.draft.working_directory = String::from_str(working_directory);
        builder
    }

    /// Sets the presets that have to run before this one.
    pub fn pre_command(self, pre_command: StringSet) -> (builder: Self)
        ensures
            builder.draft == (CommandDetails { pre_command, ..self.draft }),
            builder.validators == self.validators,
    {
        let mut builder = self;
        builder.draft.pre_command = pre_command;
        builder
    }

    /// Holds the draft to the validators, in order, and hands it out where
    /// all of them pass. The first validator that fails ends the run, and
    /// its error is the outcome.
    pub fn build(self) -> (outcome: Result<CommandDetails, ConfigError>)
        ensures
            match outcome {
                Ok(details) => details == self.draft && self.validators.judges(
                    self.draft@,
                    Ok(()),
                ),
                Err(error) => self.validators.judges(
                    self.draft@,
                    Err::<(), ConfigErrorView>(error@),
                ),
            },
    {
        match self.validators.validate(&self.draft) {
            Ok(()) => Ok(self.draft),
            Err(error) => Err(error),
        }
    }
}

} // verus!

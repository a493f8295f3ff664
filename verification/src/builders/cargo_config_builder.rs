//! The builder of a cargo preset.

use vstd::prelude::*;
use vstd::string::StringExecFns;
use crate::collections::{StringMap, StringSet};
use crate::errors::{ConfigError, ConfigErrorView};
use crate::models::cargo_context::CargoContext;
use crate::models::command_config::seed_details;
use crate::models::command_details::{CommandDetails, CommandDetailsView};
use crate::models::command_type::CommandType;
use crate::models::CommandConfig;
use crate::validation::{Chain, NoValidator, ValidateCommandDetails};

verus! {

/// A draft of a cargo preset and the validators that it has to pass.
pub struct CargoConfigBuilder<V: ValidateCommandDetails = NoValidator> {
    /// The preset as it stands.
    pub draft: CommandDetails,
    /// The validators, chained in the order in which they were attached.
    pub validators: V,
}

impl CargoConfigBuilder<NoValidator> {
    /// A builder for a preset of `command_type` in `context`: the context's
    /// conventional preset with the given type and that type's program, and
    /// no validators.
    pub fn new(command_type: CommandType, context: CargoContext) -> (builder: Self)
        ensures
            builder.draft@ == (CommandDetailsView {
                command_type,
                command: command_type.spec_program(),
                ..seed_details(context.spec_context())
            }),
    {
        let mut draft = CommandConfig::default_command_details(context.context());
        draft.command_type = command_type;
        draft.command = command_type.program();
        CargoConfigBuilder { draft, validators: NoValidator }
    }
}

impl<V: ValidateCommandDetails> CargoConfigBuilder<V> {
    /// Attaches `validator` behind the validators attached so far.
    pub fn add_validator<T: ValidateCommandDetails>(self, validator: T) -> (builder:
        CargoConfigBuilder<Chain<V, T>>)
        ensures
            builder.draft == self.draft,
            builder.validators == (Chain { first: self.validators, second: validator }),
    {
        CargoConfigBuilder {
            draft: self.draft,
            validators: Chain { first: self.validators, second: validator },
        }
    }

    /// Sets the command type.
    pub fn command_type(self, command_type: CommandType) -> (builder: Self)
        ensures
            builder.draft == (CommandDetails { command_type, ..self.draft }),
            builder.validators == self.validators,
    {
        let mut builder = self;
        builder.draft.command_type = command_type;
        builder
    }

    /// Sets the command.
    pub fn command(self, command: &str) -> (builder: Self)
        ensures
            builder.draft.command@ == command@,
            builder.draft == (CommandDetails { command: builder.draft.command, ..self.draft }),
            builder.validators == self.validators,
    {
        let mut builder = self;
        builder.draft.command = String::from_str(command);
        builder
    }

    /// Sets the action of the sub-command.
    pub fn sub_action(self, sub_action: &str) -> (builder: Self)
        ensures
            builder.draft.sub_action@ == sub_action@,
            builder.draft == (CommandDetails {
                sub_action: builder.draft.sub_action,
                ..self.draft
            }),
            builder.validators == self.validators,
    {
        let mut builder = self;
        builder.draft.sub_action = String::from_str(sub_action);
        builder
    }

    /// Sets the sub-command.
    pub fn sub_command(self, sub_command: &str) -> (builder: Self)
        ensures
            builder.draft.sub_command@ == sub_command@,
            builder.draft == (CommandDetails {
                sub_command: builder.draft.sub_command,
                ..self.draft
            }),
            builder.validators == self.validators,
    {
        let mut builder = self;
        builder.draft.sub_command = String::from_str(sub_command);
        builder
    }

    /// Sets the trailing arguments.
    pub fn params(self, params: &str) -> (builder: Self)
        ensures
            builder.draft.params@ == params@,
            builder.draft == (CommandDetails { params: builder.draft.params, ..self.draft }),
            builder.validators == self.validators,
    {
        let mut builder = self;
        builder.draft.params = String::from_str(params);
        builder
    }

    /// Sets the environment.
    pub fn env(self, env: StringMap<String>) -> (builder: Self)
        ensures
            builder.draft == (CommandDetails { env, ..self.draft }),
            builder.validators == self.validators,
    {
        let mut builder = self;
        builder.draft.env = env;
        builder
    }

    /// Sets the sub-commands that the preset may be given.
    pub fn allowed_subcommands(self, allowed_subcommands: StringSet) -> (builder: Self)
        ensures
            builder.draft == (CommandDetails { allowed_subcommands, ..self.draft }),
            builder.validators == self.validators,
    {
        let mut builder = self;
        builder.draft.allowed_subcommands = allowed_subcommands;
        builder
    }

    /// Chooses the toolchain, or none.
    pub fn toolchain(self, toolchain: Option<String>) -> (builder: Self)
        ensures
            builder.draft == (CommandDetails { toolchain, ..self.draft }),
            builder.validators == self.validators,
    {
        let mut builder = self;
        builder.draft.toolchain = toolchain;
        builder
    }

    /// Sets the cargo features to switch on.
    pub fn features(self, features: StringSet) -> (builder: Self)
        ensures
            builder.draft == (CommandDetails { features, ..self.draft }),
            builder.validators == self.validators,
    {
        let mut builder = self;
        builder.draft.features = features;
        builder
    }

    /// Chooses the build target, or none.
    pub fn target(self, target: Option<String>) -> (builder: Self)
        ensures
            builder.draft == (CommandDetails { target, ..self.draft }),
            builder.validators == self.validators,
    {
        let mut builder = self;
        builder.draft.target = target;
        builder
    }

    /// Holds the draft to the validators, in order, and hands it out where
    /// all of them pass. The first validator that fails ends the run, and
    /// its error is the outcome.
    pub fn build(self) -> (outcome: Result<CommandDetails, ConfigError>)
        ensures
            match outcome {
                Ok(details) => details == self.draft && self.validators.judges(
                    self.draft@,
                    Ok(()),
                ),
                Err(error) => self.validators.judges(
                    self.draft@,
                    Err::<(), ConfigErrorView>(error@),
                ),
            },
    {
        match self.validators.validate(&self.draft) {
            Ok(()) => Ok(self.draft),
            Err(error) => Err(error),
        }
    }
}

} // verus!

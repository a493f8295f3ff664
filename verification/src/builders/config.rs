//! The builder that validates a draft against the configuration it is meant
//! for.

use vstd::prelude::*;
use vstd::string::StringExecFns;
use crate::collections::{Duplicate, StringMap, StringSet};
use crate::errors::{ConfigError, ConfigErrorView};
use crate::models::cargo_context::CommandContext;
use crate::models::command_config::{empty_config, seed_details, CommandConfig};
use crate::models::command_details::{blank_details, CommandDetails};
use crate::models::command_type::CommandType;
use crate::models::config::Config;
use crate::validator::Validate;

verus! {

/// A draft of a preset for one context, the key it is to stand under, and
/// the rules that it has to pass.
#[derive(Debug)]
pub struct ConfigBuilder {
    /// The key under which the preset is to stand.
    pub config_key: String,
    /// The context that the preset is meant for.
    pub context: CommandContext,
    /// The preset as it stands.
    pub draft: CommandDetails,
    /// The rules to pass, in the order in which they run.
    pub validators: Vec<Validate>,
}

/// The verdict of the first of `rules`, from place `from` on, that fails;
/// a pass where none does.
pub open spec fn first_failure(
    rules: Seq<Validate>,
    from: int,
    config: &Config,
    builder: &ConfigBuilder,
) -> Result<(), ConfigErrorView>
    decreases rules.len() - from,
{
    if from < 0 || from >= rules.len() {
        Ok(())
    } else if rules[from].verdict(config, builder) is Err {
        rules[from].verdict(config, builder)
    } else {
        first_failure(rules, from + 1, config, builder)
    }
}

impl ConfigBuilder {
    /// The rules attached, in the order in which they were attached, which
    /// is the order in which they run.
    pub open spec fn rules(&self) -> Seq<Validate> {
        self.validators@
    }

    /// What the rules attached say of the draft: the verdict of the first
    /// one that fails, a pass where none does.
    pub open spec fn verdict(&self, config: &Config) -> Result<(), ConfigErrorView> {
        first_failure(self.rules(), 0, config, self)
    }

    /// A builder for `context`, seeded with the context's conventional
    /// preset, with an empty key and no rules.
    pub fn new(context: CommandContext) -> (builder: Self)
        ensures
            builder.context == context,
            builder.config_key@ == Seq::<char>::empty(),
            builder.draft@ == seed_details(context),
            builder.rules() == Seq::<Validate>::empty(),
    {
        ConfigBuilder {
            config_key: String::new(),
            context,
            draft: CommandConfig::default_command_details(context),
            validators: Vec::new(),
        }
    }

    /// A builder for the key `config_key` of `context`, seeded with the
    /// preset that `config` has there, or with the blank preset where it has
    /// none. A context without a table gets the empty table on the way.
    pub fn from(context: CommandContext, config: &mut Config, config_key: &str) -> (builder: Self)
        ensures
            builder.context == context,
            builder.config_key@ == config_key@,
            builder.rules() == Seq::<Validate>::empty(),
            old(config)@.contains_key(context) ==> final(config)@ == old(config)@,
            !old(config)@.contains_key(context) ==> final(config)@ == old(config)@.insert(
                context,
                empty_config(),
            ),
            builder.draft@ == if final(config)@[context].configs.contains_key(config_key@) {
                final(config)@[context].configs[config_key@]
            } else {
                blank_details()
            },
    {
        let table = config.context.get_or_default_config(context);
        let draft = match table.get(config_key) {
            Some(details) => details.duplicate(),
            None => CommandDetails::default(),
        };
        proof {
            if old(config)@.contains_key(context) {
                assert(config@ =~= old(config)@);
            }
        }
        ConfigBuilder {
            config_key: String::from_str(config_key),
            context,
            draft,
            validators: Vec::new(),
        }
    }

    /// Attaches `validator` behind the rules attached so far.
    pub fn add_validator(self, validator: Validate) -> (builder: Self)
        ensures
            builder.rules() == self.rules().push(validator),
            builder.context == self.context,
            builder.config_key == self.config_key,
            builder.draft == self.draft,
    {
        let mut builder = self;
        builder.validators.push(validator);
        builder
    }

    /// Sets the command type.
    pub fn command_type(self, command_type: CommandType) -> (builder: Self)
        ensures
            builder.draft == (CommandDetails { command_type, ..self.draft }),
            builder.rules() == self.rules(),
            builder.context == self.context,
            builder.config_key == self.config_key,
    {
        let mut builder = self;
        builder.draft.command_type = command_type;
        builder
    }

    /// Sets the key under which the preset is to stand.
    pub fn config_key(self, config_key: &str) -> (builder: Self)
        ensures
            builder.config_key@ == config_key@,
            builder.draft == self.draft,
            builder.rules() == self.rules(),
            builder.context == self.context,
    {
        let mut builder = self;
        builder.config_key = String::from_str(config_key);
        builder
    }

    /// Sets the command.
    pub fn command(self, command: &str) -> (builder: Self)
        ensures
            builder.draft.command@ == command@,
            builder.draft == (CommandDetails { command: builder.draft.command, ..self.draft }),
            builder.rules() == self.rules(),
            builder.context == self.context,
            builder.config_key == self.config_key,
    {
        let mut builder = self;
        builder.draft.command = String::from_str(command);
        builder
    }

    /// Sets the trailing arguments.
    pub fn params(self, params: &str) -> (builder: Self)
        ensures
            builder.draft.params@ == params@,
            builder.draft == (CommandDetails { params: builder.draft.params, ..self.draft }),
            builder.rules() == self.rules(),
            builder.context == self.context,
            builder.config_key == self.config_key,
    {
        let mut builder = self;
        builder.draft.params = String::from_str(params);
        builder
    }

    /// Sets the environment.
    pub fn env(self, env: StringMap<String>) -> (builder: Self)
        ensures
            builder.draft == (CommandDetails { env, ..self.draft }),
            builder.rules() == self.rules(),
            builder.context == self.context,
            builder.config_key == self.config_key,
    {
        let mut builder = self;
        builder.draft.env = env;
        builder
    }

    /// Says whether several instances may run at once.
    pub fn allow_multiple_instances(self, allow_multiple_instances: bool) -> (builder: Self)
        ensures
            builder.draft == (CommandDetails { allow_multiple_instances, ..self.draft }),
            builder.rules() == self.rules(),
            builder.context == self.context,
            builder.config_key == self.config_key,
    {
        let mut builder = self;
        builder.draft.allow_multiple_instances = allow_multiple_instances;
        builder
    }

    /// Sets the directory in which the process starts.
    pub fn working_directory(self, working_directory: &str) -> (builder: Self)
        ensures
            builder.draft.working_directory@ == working_directory@,
            builder.draft == (CommandDetails {
                working_directory: builder.draft.working_directory,
                ..self.draft
            }),
            builder.rules() == self.rules(),
            builder.context == self.context,
            builder.config_key == self.config_key,
    {
        let mut builder = self;
        builder.draft.working_directory = String::from_str(working_directory);
        builder
    }

    /// Sets the presets that have to run before this one.
    pub fn pre_command(self, pre_command: StringSet) -> (builder: Self)
        ensures
            builder.draft == (CommandDetails { pre_command, ..self.draft }),
            builder.draft.pre_command == pre_command,
            builder.rules() == self.rules(),
            builder.context == self.context,
            builder.config_key == self.config_key,
    {
        let mut builder = self;
        builder.draft.pre_command = pre_command;
        builder
    }

    /// Runs the rules attached, in order, against `config`, and hands out the
    /// draft where all of them pass. The first rule that fails ends the run,
    /// and its error is the outcome.
    pub fn build(self, config: &Config) -> (outcome: Result<CommandDetails, ConfigError>)
        ensures
            match outcome {
                Ok(details) => self.verdict(config) is Ok && details == self.draft,
                Err(error) => self.verdict(config) == Err::<(), ConfigErrorView>(error@),
            },
    {
        let mut i: usize = 0;
        while i < self.validators.len()
            invariant
                0 <= i <= self.validators@.len(),
                first_failure(self.rules(), 0, config, &self) == first_failure(
                    self.rules(),
                    i as int,
                    config,
                    &self,
                ),
            decreases self.validators@.len() - i,
        {
            match self.validators[i].validate(config, &self) {
                Ok(()) => {},
                Err(error) => {
                    return Err(error);
                },
            }
            i += 1;
        }
        Ok(self.draft)
    }
}

} // verus!

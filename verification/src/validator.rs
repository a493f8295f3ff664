//! The rules that a candidate preset can be held to, and the list of rules
//! that a [`ConfigBuilder`] runs.

use vstd::prelude::*;
use vstd::string::StringExecFns;
use crate::builders::config::ConfigBuilder;
use crate::collections::string_map::texts_of;
use crate::collections::{StringMap, StringSet};
use crate::errors::{ConfigError, ConfigErrorView};
use crate::helpers::{is_valid_env_var_name, join, joined, same_text, valid_env_var_name};
use crate::models::command_type::CommandType;
use crate::models::config::Config;

verus! {

/// A verdict with the error, if any, as plain values.
pub open spec fn verdict_view(verdict: Result<(), ConfigError>) -> Result<(), ConfigErrorView> {
    match verdict {
        Ok(_) => Ok(()),
        Err(error) => Err(error@),
    }
}

/// The environment rule: every variable name obeys the naming rule.
pub open spec fn env_verdict(env: Map<Seq<char>, Seq<char>>) -> Result<(), ConfigErrorView> {
    if forall|name: Seq<char>| env.contains_key(name) ==> valid_env_var_name(name) {
        Ok(())
    } else {
        Err(ConfigErrorView::InvalidEnvFormat)
    }
}

/// What is said of a sub-command that is not allowed.
pub open spec fn sub_command_message(sub_command: Seq<char>) -> Seq<char> {
    "You cannot use "@ + sub_command + " as a sub_command"@
}

/// The sub-command rule: the sub-command is one of the allowed ones.
pub open spec fn sub_command_verdict(sub_command: Seq<char>, allowed: Set<Seq<char>>) -> Result<
    (),
    ConfigErrorView,
> {
    if allowed.contains(sub_command) {
        Ok(())
    } else {
        Err(ConfigErrorView::InvalidSubCommand(sub_command_message(sub_command)))
    }
}

/// What is said of a preset that names itself as a pre-command.
pub open spec fn self_reference_message(key: Seq<char>) -> Seq<char> {
    "You cannot use "@ + key + " as a pre_command"@
}

/// What is said of the pre-command `name` that is none of the `known`
/// presets.
pub open spec fn unknown_pre_command_message(name: Seq<char>, known: Seq<Seq<char>>) -> Seq<char> {
    "Pre-command "@ + name + " must be any of the following: ["@ + joined(known, ","@) + "]"@
}

/// The first of `names` that is not among `known`, if there is one.
pub open spec fn first_unknown(names: Seq<Seq<char>>, known: Seq<Seq<char>>) -> Option<Seq<char>>
    decreases names.len(),
{
    if names.len() == 0 {
        None
    } else if !known.contains(names[0]) {
        Some(names[0])
    } else {
        first_unknown(names.drop_first(), known)
    }
}

/// The pre-command rule for a preset that is to stand under `key`: the
/// pre-commands, taken in the order `pre_command`, do not include `key`, and
/// each of them is one of the `known` presets. A self-reference is reported
/// before an unknown name, and of the unknown names the first one.
pub open spec fn pre_command_verdict(
    key: Seq<char>,
    pre_command: Seq<Seq<char>>,
    known: Seq<Seq<char>>,
) -> Result<(), ConfigErrorView> {
    if pre_command.contains(key) {
        Err(ConfigErrorView::InvalidPreCommand(self_reference_message(key)))
    } else {
        match first_unknown(pre_command, known) {
            Some(name) => Err(
                ConfigErrorView::InvalidPreCommand(unknown_pre_command_message(name, known)),
            ),
            None => Ok(()),
        }
    }
}

/// What is said of an empty command.
pub open spec fn empty_command_message() -> Seq<char> {
    "Command cannot be empty"@
}

/// The command rule: the command is not empty.
pub open spec fn command_verdict(command: Seq<char>) -> Result<(), ConfigErrorView> {
    if command.len() > 0 {
        Ok(())
    } else {
        Err(ConfigErrorView::MissingConfigFields(empty_command_message()))
    }
}

/// What is said of a command type that a cargo context does not take.
pub open spec fn command_type_message() -> Seq<char> {
    "Command Type Error"@
}

/// The command-type rule of the cargo contexts: the type is `Cargo`.
pub open spec fn command_type_verdict(command_type: CommandType) -> Result<(), ConfigErrorView> {
    if command_type == CommandType::Cargo {
        Ok(())
    } else {
        Err(ConfigErrorView::CommandType(command_type_message()))
    }
}

/// The pre-command rule passes exactly when the pre-commands do not include
/// the key and all of them are known.
pub proof fn lemma_pre_command_verdict(
    key: Seq<char>,
    pre_command: Seq<Seq<char>>,
    known: Seq<Seq<char>>,
)
    ensures
        pre_command_verdict(key, pre_command, known) is Ok <==> !pre_command.contains(key) && (
        forall|i: int| 0 <= i < pre_command.len() ==> known.contains(#[trigger] pre_command[i])),
        pre_command_verdict(key, pre_command, known) is Err ==> pre_command_verdict(
            key,
            pre_command,
            known,
        )->Err_0 is InvalidPreCommand,
{
    lemma_first_unknown(pre_command, known);
}

/// `first_unknown` finds nothing exactly when every name is known, and what
/// it finds is one of the names and unknown.
pub proof fn lemma_first_unknown(names: Seq<Seq<char>>, known: Seq<Seq<char>>)
    ensures
        first_unknown(names, known) is None <==> (forall|i: int|
            0 <= i < names.len() ==> known.contains(#[trigger] names[i])),
        first_unknown(names, known) matches Some(name) ==> names.contains(name) && !known.contains(
            name,
        ),
    decreases names.len(),
{
    if names.len() == 0 {
    } else if !known.contains(names[0]) {
    } else {
        let rest = names.drop_first();
        lemma_first_unknown(rest, known);
        if first_unknown(rest, known) is None {
            assert forall|i: int| 0 <= i < names.len() implies known.contains(
                #[trigger] names[i],
            ) by {
                if i > 0 {
                    assert(names[i] == rest[i - 1]);
                }
            }
        } else {
            let name = first_unknown(rest, known)->0;
            let k = choose|k: int| 0 <= k < rest.len() && rest[k] == name;
            assert(names[k + 1] == name);
        }
    }
}

/// Whether one of `items` has the characters of `text`.
fn list_contains(items: &Vec<String>, text: &str) -> (held: bool)
    ensures
        held == texts_of(items@).contains(text@),
{
    let mut i: usize = 0;
    while i < items.len()
        invariant
            0 <= i <= items@.len(),
            forall|j: int| 0 <= j < i ==> texts_of(items@)[j] != text@,
        decreases items@.len() - i,
    {
        if same_text(items[i].as_str(), text) {
            assert(texts_of(items@)[i as int] == text@);
            return true;
        }
        i += 1;
    }
    false
}

/// Holds an environment to the environment rule.
pub fn check_env(env: &StringMap<String>) -> (verdict: Result<(), ConfigError>)
    ensures
        verdict_view(verdict) == env_verdict(env@),
{
    let count = env.len();
    let mut i: usize = 0;
    while i < count
        invariant
            0 <= i <= count,
            count == env.keys().len(),
            env.keys().to_set() == env@.dom(),
            forall|j: int| 0 <= j < i ==> valid_env_var_name(#[trigger] env.keys()[j]),
        decreases count - i,
    {
        if !is_valid_env_var_name(env.key_at(i).as_str()) {
            assert(env@.contains_key(env.keys()[i as int]));
            return Err(ConfigError::InvalidEnvFormat);
        }
        i += 1;
    }
    proof {
        assert forall|name: Seq<char>| env@.contains_key(name) implies valid_env_var_name(name) by {
            assert(env.keys().contains(name));
            let k = choose|k: int| 0 <= k < env.keys().len() && env.keys()[k] == name;
            assert(valid_env_var_name(env.keys()[k]));
        }
    }
    Ok(())
}

/// Holds a sub-command to the sub-command rule.
pub fn check_sub_command(sub_command: &str, allowed: &StringSet) -> (verdict: Result<
    (),
    ConfigError,
>)
    ensures
        verdict_view(verdict) == sub_command_verdict(sub_command@, allowed@),
{
    if allowed.contains(sub_command) {
        Ok(())
    } else {
        let mut message = String::from_str("You cannot use ");
        message.append(sub_command);
        message.append(" as a sub_command");
        Err(ConfigError::InvalidSubCommand(message))
    }
}

/// Holds the pre-commands of a preset that is to stand under `key` to the
/// pre-command rule; `known` are the presets that its context has.
pub fn check_pre_command(key: &str, pre_command: &StringSet, known: &Vec<String>) -> (verdict:
    Result<(), ConfigError>)
    ensures
        verdict_view(verdict) == pre_command_verdict(key@, pre_command.texts(), texts_of(known@)),
{
    let count = pre_command.len();
    if pre_command.contains(key) {
        let mut message = String::from_str("You cannot use ");
        message.append(key);
        message.append(" as a pre_command");
        return Err(ConfigError::InvalidPreCommand(message));
    }
    let ghost names = pre_command.texts();
    proof {
        assert(names.skip(0) =~= names);
        assert(!names.contains(key@)) by {
            if names.contains(key@) {
                assert(names.to_set().contains(key@));
            }
        }
    }
    let mut i: usize = 0;
    while i < count
        invariant
            0 <= i <= count,
            count == names.len(),
            names == pre_command.texts(),
            !names.contains(key@),
            first_unknown(names, texts_of(known@)) == first_unknown(
                names.skip(i as int),
                texts_of(known@),
            ),
        decreases count - i,
    {
        let name = pre_command.item_at(i);
        proof {
            assert(names.skip(i as int)[0] == names[i as int]);
            assert(names.skip(i as int).drop_first() =~= names.skip(i + 1));
        }
        if !list_contains(known, name.as_str()) {
            let mut message = String::from_str("Pre-command ");
            message.append(name.as_str());
            message.append(" must be any of the following: [");
            let listed = join(known, ",");
            message.append(listed.as_str());
            message.append("]");
            proof {
                assert(texts_of(known@) == known@.map_values(|item: String| item@));
                assert(message@ =~= unknown_pre_command_message(name@, texts_of(known@)));
            }
            return Err(ConfigError::InvalidPreCommand(message));
        }
        i += 1;
    }
    assert(names.skip(count as int) =~= Seq::<Seq<char>>::empty());
    Ok(())
}

/// Holds a command to the command rule.
pub fn check_command(command: &str) -> (verdict: Result<(), ConfigError>)
    ensures
        verdict_view(verdict) == command_verdict(command@),
{
    if command.is_empty() {
        Err(ConfigError::MissingConfigFields(String::from_str("Command cannot be empty")))
    } else {
        Ok(())
    }
}

/// Holds a command type to the command-type rule of the cargo contexts.
pub fn check_command_type(command_type: CommandType) -> (verdict: Result<(), ConfigError>)
    ensures
        verdict_view(verdict) == command_type_verdict(command_type),
{
    match command_type {
        CommandType::Cargo => Ok(()),
        _ => Err(ConfigError::CommandType(String::from_str("Command Type Error"))),
    }
}

/// One rule of the catalog, to be run by a [`ConfigBuilder`] against the
/// configuration that the new preset is meant for.
#[derive(Clone, Copy, Debug, PartialEq, Eq, Structural)]
pub enum Validate {
    /// The command-type rule of the cargo contexts.
    CommandType,
    /// The command rule.
    Command,
    /// The environment rule.
    Env,
    /// The sub-command rule.
    SubCommand,
    /// The pre-command rule, for the builder's key and context.
    PreCommand,
}

impl Validate {
    /// What this rule says of the builder's draft, given the configuration
    /// that the new preset is meant for.
    pub open spec fn verdict(self, config: &Config, builder: &ConfigBuilder) -> Result<
        (),
        ConfigErrorView,
    > {
        match self {
            Validate::CommandType => command_type_verdict(builder.draft.command_type),
            Validate::Command => command_verdict(builder.draft.command@),
            Validate::Env => env_verdict(builder.draft.env@),
            Validate::SubCommand => sub_command_verdict(
                builder.draft.sub_command@,
                builder.draft.allowed_subcommands@,
            ),
            Validate::PreCommand => pre_command_verdict(
                builder.config_key@,
                builder.draft.pre_command.texts(),
                config.context.key_order(builder.context),
            ),
        }
    }

    /// Runs this rule on the builder's draft.
    pub fn validate(&self, config: &Config, builder: &ConfigBuilder) -> (verdict: Result<
        (),
        ConfigError,
    >)
        ensures
            verdict_view(verdict) == self.verdict(config, builder),
    {
        match self {
            Validate::CommandType => check_command_type(builder.draft.command_type),
            Validate::Command => check_command(builder.draft.command.as_str()),
            Validate::Env => check_env(&builder.draft.env),
            Validate::SubCommand => check_sub_command(
                builder.draft.sub_command.as_str(),
                &builder.draft.allowed_subcommands,
            ),
            Validate::PreCommand => {
                let known = config.context.get_configs(builder.context);
                check_pre_command(builder.config_key.as_str(), &builder.draft.pre_command, &known)
            },
        }
    }
}

/// The pre-command rule.
pub fn pre_command_validator() -> (rule: Validate)
    ensures
        rule == Validate::PreCommand,
{
    Validate::PreCommand
}

/// The command rule.
pub fn command_validator() -> (rule: Validate)
    ensures
        rule == Validate::Command,
{
    Validate::Command
}

/// The command-type rule of the cargo contexts.
pub fn command_type_validator() -> (rule: Validate)
    ensures
        rule == Validate::CommandType,
{
    Validate::CommandType
}

/// The environment rule.
pub fn env_validator() -> (rule: Validate)
    ensures
        rule == Validate::Env,
{
    Validate::Env
}

/// The sub-command rule.
pub fn sub_command_validator() -> (rule: Validate)
    ensures
        rule == Validate::SubCommand,
{
    Validate::SubCommand
}

} // verus!

//! One context's table of presets.

use vstd::prelude::*;
use vstd::string::StringExecFns;
use crate::collections::string_map::{texts_of, with_new, without};
use crate::collections::{Duplicate, StringMap, StringSet};
use crate::errors::{ConfigError, ConfigErrorView};
use crate::models::cargo_context::CommandContext;
use crate::models::command_details::{
    blank_details, lemma_merge_details_idempotent, lemma_merge_details_same, merge_details,
    CommandDetails, CommandDetailsView,
};
use crate::models::command_type::CommandType;

verus! {

/// The presets of one context, by name, and the name of the one in use.
///
/// `default` is meant to name a key of `configs`, but nothing keeps it so:
/// after the preset it names is removed it reads `default` again, whether or
/// not such a key exists. Look the default up with
/// [`CommandConfig::default_details`], which treats a missing key as absence.
#[derive(Debug)]
pub struct CommandConfig {
    /// The name of the preset in use.
    pub default: String,
    /// The presets by name.
    pub configs: StringMap<CommandDetails>,
}

/// A table as plain values.
pub ghost struct CommandConfigView {
    pub default: Seq<char>,
    pub configs: Map<Seq<char>, CommandDetailsView>,
}

impl View for CommandConfig {
    type V = CommandConfigView;

    open spec fn view(&self) -> CommandConfigView {
        CommandConfigView { default: self.default@, configs: self.configs@ }
    }
}

/// The name that `default` takes when nothing else is chosen.
pub open spec fn default_key() -> Seq<char> {
    "default"@
}

/// The directory in which a preset starts when none is given.
pub open spec fn workspace_folder() -> Seq<char> {
    "${workspaceFolder}"@
}

/// The conventional preset of a context: `cargo` with the context's name as
/// its sub-command for the four cargo contexts, a shell preset without a
/// command for a script. It starts in the workspace folder.
pub open spec fn seed_details(context: CommandContext) -> CommandDetailsView {
    CommandDetailsView {
        command_type: context.spec_command_type(),
        command: context.spec_command_type().spec_program(),
        sub_command: context.spec_sub_command(),
        working_directory: workspace_folder(),
        ..blank_details()
    }
}

/// The table of a context that nobody has configured: its conventional
/// preset under the key `default`, which is also the one in use.
pub open spec fn seed_config(context: CommandContext) -> CommandConfigView {
    CommandConfigView {
        default: default_key(),
        configs: Map::<Seq<char>, CommandDetailsView>::empty().insert(
            default_key(),
            seed_details(context),
        ),
    }
}

/// The table without presets.
pub open spec fn empty_config() -> CommandConfigView {
    CommandConfigView { default: default_key(), configs: Map::empty() }
}

/// The presets of `base` after those of `incoming` have been merged in: a
/// name that both have holds the field-by-field merge, a name that only one
/// has holds that one's preset.
pub open spec fn merge_presets(
    base: Map<Seq<char>, CommandDetailsView>,
    incoming: Map<Seq<char>, CommandDetailsView>,
) -> Map<Seq<char>, CommandDetailsView> {
    Map::new(
        |name: Seq<char>| base.contains_key(name) || incoming.contains_key(name),
        |name: Seq<char>|
            if incoming.contains_key(name) {
                if base.contains_key(name) {
                    merge_details(base[name], incoming[name])
                } else {
                    incoming[name]
                }
            } else {
                base[name]
            },
    )
}

/// The table `base` after `incoming` has been merged in. The presets are
/// merged by name; the default of `incoming` becomes the default where the
/// merged presets have it, and the default of `base` stays where they do
/// not.
pub open spec fn merge_config(
    base: CommandConfigView,
    incoming: CommandConfigView,
) -> CommandConfigView {
    let configs = merge_presets(base.configs, incoming.configs);
    CommandConfigView {
        default: if configs.contains_key(incoming.default) {
            incoming.default
        } else {
            base.default
        },
        configs,
    }
}

/// Whether a merge of `incoming` into `base` takes over the default of
/// `incoming`: whether the merged presets have one of that name.
pub open spec fn promotes_default(base: CommandConfigView, incoming: CommandConfigView) -> bool {
    merge_presets(base.configs, incoming.configs).contains_key(incoming.default)
}

/// The table that holds only the preset `name` of `config`, as its default;
/// nothing where `config` has no such preset.
pub open spec fn pluck_config(config: CommandConfigView, name: Seq<char>) -> Option<
    CommandConfigView,
> {
    if config.configs.contains_key(name) {
        Some(
            CommandConfigView {
                default: name,
                configs: Map::<Seq<char>, CommandDetailsView>::empty().insert(
                    name,
                    config.configs[name],
                ),
            },
        )
    } else {
        None
    }
}

/// The table `config` without the preset `key`. Where `key` was the default,
/// the default reads `default` afterwards.
pub open spec fn remove_from_config(
    config: CommandConfigView,
    key: Seq<char>,
) -> CommandConfigView {
    CommandConfigView {
        default: if config.default == key {
            default_key()
        } else {
            config.default
        },
        configs: config.configs.remove(key),
    }
}

/// Merging the same table in a second time changes nothing: neither the
/// presets, nor any of their fields, nor the default.
pub proof fn lemma_merge_config_idempotent(base: CommandConfigView, incoming: CommandConfigView)
    ensures
        merge_config(merge_config(base, incoming), incoming) == merge_config(base, incoming),
{
    let once = merge_config(base, incoming);
    let twice = merge_config(once, incoming);
    assert forall|name: Seq<char>| once.configs.contains_key(name) implies #[trigger] twice.configs[name]
        == once.configs[name] by {
        if incoming.configs.contains_key(name) {
            if base.configs.contains_key(name) {
                lemma_merge_details_idempotent(base.configs[name], incoming.configs[name]);
            } else {
                lemma_merge_details_same(incoming.configs[name]);
            }
        }
    }
    assert(twice.configs =~= once.configs);
}

/// After a merge, a preset that both tables had has the command of the
/// incoming one, and so for every field that a preset always has; a preset
/// that only the incoming table had is the incoming preset.
pub proof fn lemma_merge_config_right_bias(
    base: CommandConfigView,
    incoming: CommandConfigView,
    name: Seq<char>,
)
    requires
        incoming.configs.contains_key(name),
    ensures
        merge_config(base, incoming).configs.contains_key(name),
        merge_config(base, incoming).configs[name].command == incoming.configs[name].command,
        merge_config(base, incoming).configs[name].command_type
            == incoming.configs[name].command_type,
        merge_config(base, incoming).configs[name].sub_command
            == incoming.configs[name].sub_command,
        merge_config(base, incoming).configs[name].sub_action
            == incoming.configs[name].sub_action,
        merge_config(base, incoming).configs[name].params == incoming.configs[name].params,
        merge_config(base, incoming).configs[name].working_directory
            == incoming.configs[name].working_directory,
        merge_config(base, incoming).configs[name].allow_multiple_instances
            == incoming.configs[name].allow_multiple_instances,
        !base.configs.contains_key(name) ==> merge_config(base, incoming).configs[name]
            == incoming.configs[name],
{
}

/// A merge never loses a preset, and a preset that only the base had is
/// untouched by it.
pub proof fn lemma_merge_config_keeps_presets(base: CommandConfigView, incoming: CommandConfigView)
    ensures
        base.configs.dom().subset_of(merge_config(base, incoming).configs.dom()),
        incoming.configs.dom().subset_of(merge_config(base, incoming).configs.dom()),
        forall|name: Seq<char>| #[trigger]
            base.configs.contains_key(name) && !incoming.configs.contains_key(name)
                ==> merge_config(base, incoming).configs[name] == base.configs[name],
{
}

/// The conventional table of a cargo context has exactly one preset, under
/// the key `default`; it is a cargo preset whose sub-command is the name of
/// the context.
pub proof fn lemma_seed_config_of_cargo_context(context: CommandContext)
    requires
        context.is_cargo(),
    ensures
        seed_config(context).configs.dom() == Set::<Seq<char>>::empty().insert(default_key()),
        seed_config(context).default == default_key(),
        seed_config(context).configs[default_key()].command_type == CommandType::Cargo,
        seed_config(context).configs[default_key()].sub_command == context.spec_name(),
        seed_config(context).configs[default_key()].command == "cargo"@,
{
    assert(seed_config(context).configs.dom() =~= Set::<Seq<char>>::empty().insert(
        default_key(),
    ));
}

/// The default of a table that does not say one: `default`.
pub fn default_command_config() -> (key: String)
    ensures
        key@ == default_key(),
{
    String::from_str("default")
}

impl Default for CommandConfig {
    fn default() -> (config: Self)
        ensures
            config@ == empty_config(),
            config.configs.keys() == Seq::<Seq<char>>::empty(),
    {
        CommandConfig { default: String::from_str("default"), configs: StringMap::new() }
    }
}

impl Duplicate for CommandConfig {
    fn duplicate(&self) -> (copy: Self) {
        CommandConfig { default: self.default.clone(), configs: self.configs.duplicate() }
    }
}

impl Clone for CommandConfig {
    fn clone(&self) -> (copy: Self)
        ensures
            copy@ == self@,
    {
        self.duplicate()
    }
}

impl CommandConfig {
    /// The conventional preset of `context`.
    pub fn default_command_details(context: CommandContext) -> (details: CommandDetails)
        ensures
            details@ == seed_details(context),
    {
        CommandDetails {
            command_type: context.command_type(),
            command: context.command(),
            toolchain: None,
            sub_command: context.sub_command(),
            sub_action: String::new(),
            params: String::new(),
            target: None,
            features: StringSet::new(),
            allowed_subcommands: StringSet::new(),
            env: StringMap::new(),
            allow_multiple_instances: false,
            working_directory: String::from_str("${workspaceFolder}"),
            pre_command: StringSet::new(),
        }
    }

    /// The table of a context that nobody has configured.
    pub fn with_context(context: CommandContext) -> (config: Self)
        ensures
            config@ == seed_config(context),
            config.configs.keys() == seq![default_key()],
    {
        let mut configs = StringMap::new();
        configs.insert(String::from_str("default"), Self::default_command_details(context));
        CommandConfig { default: String::from_str("default"), configs }
    }

    /// Stores `details` under `key`, replacing the preset held there. A new
    /// key goes to the end of the storage order, a known one keeps its place.
    pub fn update_config(&mut self, key: &str, details: CommandDetails)
        ensures
            final(self)@.default == old(self)@.default,
            final(self)@.configs == old(self)@.configs.insert(key@, details@),
            final(self).configs.keys() == if old(self)@.configs.contains_key(key@) {
                old(self).configs.keys()
            } else {
                old(self).configs.keys().push(key@)
            },
    {
        self.configs.insert(String::from_str(key), details);
    }

    /// Takes out the preset under `key`. Where `key` was the default, the
    /// default reads `default` afterwards, whether or not such a preset
    /// exists.
    pub fn remove_config(&mut self, key: &str)
        ensures
            final(self)@ == remove_from_config(old(self)@, key@),
            final(self).configs.keys() == without(old(self).configs.keys(), key@),
    {
        self.configs.remove(key);
        if crate::helpers::same_text(self.default.as_str(), key) {
            self.default = String::from_str("default");
        }
    }

    /// The preset under `name`, if the table has one.
    pub fn get(&self, name: &str) -> (found: Option<&CommandDetails>)
        ensures
            match found {
                Some(details) => self@.configs.contains_key(name@) && details@
                    == self@.configs[name@],
                None => !self@.configs.contains_key(name@),
            },
    {
        self.configs.get(name)
    }

    /// The preset in use, if the default names one.
    pub fn default_details(&self) -> (found: Option<&CommandDetails>)
        ensures
            match found {
                Some(details) => self@.configs.contains_key(self@.default) && details@
                    == self@.configs[self@.default],
                None => !self@.configs.contains_key(self@.default),
            },
    {
        self.configs.get(self.default.as_str())
    }

    /// The names of the presets, each once, in the order in which the table
    /// stores them.
    pub fn keys(&self) -> (names: Vec<String>)
        ensures
            texts_of(names@) == self.configs.keys(),
            texts_of(names@).no_duplicates(),
            texts_of(names@).to_set() == self@.configs.dom(),
    {
        self.configs.key_list()
    }

    /// Makes `key` the default. Fails, and changes nothing, where the table
    /// has no preset under `key`.
    pub fn set_default(&mut self, key: &str) -> (outcome: Result<(), ConfigError>)
        ensures
            final(self)@.configs == old(self)@.configs,
            match outcome {
                Ok(()) => old(self)@.configs.contains_key(key@) && final(self)@.default == key@,
                Err(error) => !old(self)@.configs.contains_key(key@) && final(self)@.default
                    == old(self)@.default && error@ == ConfigErrorView::ConfigKeyNotFound(key@),
            },
    {
        if self.configs.contains_key(key) {
            self.default = String::from_str(key);
            Ok(())
        } else {
            Err(ConfigError::ConfigKeyNotFound(String::from_str(key)))
        }
    }

    /// Merges the table `incoming` into this one: presets by name, field by
    /// field where both have the name, and then the default. A preset held
    /// keeps its place in the storage order, and the new ones follow in the
    /// order of `incoming`. Says whether the default of `incoming` was taken
    /// over; where it was not, the caller may want to warn.
    pub fn merge_from(&mut self, incoming: &CommandConfig) -> (promoted: bool)
        ensures
            final(self)@ == merge_config(old(self)@, incoming@),
            promoted == promotes_default(old(self)@, incoming@),
            final(self).configs.keys() == with_new(
                old(self).configs.keys(),
                incoming.configs.keys(),
            ),
    {
        let count = incoming.configs.len();
        let ghost names = incoming.configs.keys();
        let ghost base = self.configs@;
        let mut i: usize = 0;
        while i < count
            invariant
                0 <= i <= count,
                count == names.len(),
                names == incoming.configs.keys(),
                names.no_duplicates(),
                names.to_set() == incoming.configs@.dom(),
                self.default == old(self).default,
                self.configs@ == merge_presets(
                    base,
                    incoming.configs@.restrict(names.take(i as int).to_set()),
                ),
                self.configs.keys() == with_new(old(self).configs.keys(), names.take(i as int)),
            decreases count - i,
        {
            let ghost done = names.take(i as int);
            let ghost before = self.configs@;
            let key = incoming.configs.key_at(i);
            let value = incoming.configs.value_at(i);
            let merged = match self.configs.get(key.as_str()) {
                Some(existing) => {
                    let mut merged = existing.duplicate();
                    merged.merge_from(value);
                    merged
                },
                None => value.duplicate(),
            };
            self.configs.insert(key.clone(), merged);
            proof {
                let next = names.take(i + 1);
                assert(next =~= done.push(key@));
                assert(next.drop_last() =~= done);
                assert(next.last() == key@);
                crate::collections::string_set::lemma_push_to_set(done, key@);
                assert(!done.contains(key@)) by {
                    if done.contains(key@) {
                        let k = choose|k: int| 0 <= k < done.len() && done[k] == key@;
                        assert(names[k] == names[i as int]);
                    }
                }
                assert(names.contains(key@));
                let smaller = incoming.configs@.restrict(done.to_set());
                let larger = incoming.configs@.restrict(next.to_set());
                assert(self.configs@ =~= merge_presets(base, larger));
            }
            i += 1;
        }
        proof {
            assert(names.take(count as int) =~= names);
            assert(incoming.configs@.restrict(names.to_set()) =~= incoming.configs@);
        }
        if self.configs.contains_key(incoming.default.as_str()) {
            self.default = incoming.default.clone();
            true
        } else {
            false
        }
    }

    /// The table that holds only the preset `name` of this one, as its
    /// default; nothing where this table has no such preset.
    pub fn pluck(&self, name: &str) -> (plucked: Option<CommandConfig>)
        ensures
            match plucked {
                Some(config) => pluck_config(self@, name@) == Some(config@)
                    && config.configs.keys() == seq![name@],
                None => pluck_config(self@, name@) is None,
            },
    {
        match self.configs.get(name) {
            Some(details) => {
                let mut configs = StringMap::new();
                configs.insert(String::from_str(name), details.duplicate());
                Some(CommandConfig { default: String::from_str(name), configs })
            },
            None => None,
        }
    }
}

} // verus!

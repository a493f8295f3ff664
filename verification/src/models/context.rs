//! The presets of every invocation context.

use vstd::prelude::*;
use crate::collections::string_map::{texts_of, with_new};
use crate::collections::Duplicate;
use crate::errors::{ConfigError, ConfigErrorView};
use crate::models::cargo_context::CommandContext;
use crate::models::command_config::{
    empty_config, lemma_merge_config_idempotent, merge_config, pluck_config, promotes_default,
    seed_config, CommandConfig, CommandConfigView,
};
use crate::models::command_details::{
    lemma_merge_details_never_shrinks, CommandDetails, CommandDetailsView,
};
use vstd::string::StringExecFns;

verus! {

/// One slot per invocation context. An empty slot is a context without any
/// presets, which is not the same as a context with only its conventional
/// one.
#[derive(Debug)]
pub struct Context {
    pub run: Option<CommandConfig>,
    pub test: Option<CommandConfig>,
    pub build: Option<CommandConfig>,
    pub bench: Option<CommandConfig>,
    pub script: Option<CommandConfig>,
}

/// Another name for [`Context`].
pub type Commands = Context;

impl View for Context {
    type V = Map<CommandContext, CommandConfigView>;

    open spec fn view(&self) -> Map<CommandContext, CommandConfigView> {
        Map::new(
            |context: CommandContext| self.slot(context) is Some,
            |context: CommandContext| self.slot(context)->0@,
        )
    }
}

/// The tables of a fresh configuration: each cargo context has its
/// conventional table, and the script context has none.
pub open spec fn default_tables() -> Map<CommandContext, CommandConfigView> {
    Map::new(
        |context: CommandContext| context.is_cargo(),
        |context: CommandContext| seed_config(context),
    )
}

/// The tables `base` after the tables `incoming` have been merged in,
/// whatever the tables are keyed by. A key of `incoming` holds the merge of
/// its table into the one that `base` has there, or into the empty table
/// where `base` has none; any other key holds what `base` has.
pub open spec fn merge_tables<K>(
    base: Map<K, CommandConfigView>,
    incoming: Map<K, CommandConfigView>,
) -> Map<K, CommandConfigView> {
    Map::new(
        |key: K| base.contains_key(key) || incoming.contains_key(key),
        |key: K|
            if incoming.contains_key(key) {
                merge_config(table_or_empty(base, key), incoming[key])
            } else {
                base[key]
            },
    )
}

/// The table that `tables` holds under `key`, or the empty table where it
/// holds none.
pub open spec fn table_or_empty<K>(tables: Map<K, CommandConfigView>, key: K) -> CommandConfigView {
    if tables.contains_key(key) {
        tables[key]
    } else {
        empty_config()
    }
}

/// The keys of `incoming` whose default a merge into `base` does not take
/// over, because the merged table has no preset of that name.
pub open spec fn stale_defaults<K>(
    base: Map<K, CommandConfigView>,
    incoming: Map<K, CommandConfigView>,
) -> Set<K> {
    Set::new(
        |key: K|
            incoming.contains_key(key) && !merge_tables(base, incoming)[key].configs.contains_key(
                incoming[key].default,
            ),
    )
}

/// The tables that hold only the preset `name`, as their default, for the
/// keys under which `tables` has such a preset; the other keys are absent.
pub open spec fn pluck_tables<K>(tables: Map<K, CommandConfigView>, name: Seq<char>) -> Map<
    K,
    CommandConfigView,
> {
    Map::new(
        |key: K| tables.contains_key(key) && tables[key].configs.contains_key(name),
        |key: K| pluck_config(tables[key], name)->0,
    )
}

/// The names of the presets that `tables` holds under `key`: none where it
/// holds no table there.
pub open spec fn preset_names<K>(tables: Map<K, CommandConfigView>, key: K) -> Set<Seq<char>> {
    if tables.contains_key(key) {
        tables[key].configs.dom()
    } else {
        Set::empty()
    }
}

/// The tables `tables` with `name` as the default of the table under `key`.
pub open spec fn promote<K>(
    tables: Map<K, CommandConfigView>,
    key: K,
    name: Seq<char>,
) -> Map<K, CommandConfigView> {
    tables.insert(key, CommandConfigView { default: name, configs: tables[key].configs })
}

/// The preset `name` that `tables` holds under `key`, if there is one.
pub open spec fn find_preset<K>(
    tables: Map<K, CommandConfigView>,
    key: K,
    name: Seq<char>,
) -> Option<CommandDetailsView> {
    if tables.contains_key(key) && tables[key].configs.contains_key(name) {
        Some(tables[key].configs[name])
    } else {
        None
    }
}

/// The table that `tables` holds under `context`, or the conventional table
/// of `context` where it holds none.
pub open spec fn table_or_seed(
    tables: Map<CommandContext, CommandConfigView>,
    context: CommandContext,
) -> CommandConfigView {
    if tables.contains_key(context) {
        tables[context]
    } else {
        seed_config(context)
    }
}

/// Merging the same tables in a second time changes nothing: the result has
/// the same contexts, the same presets with the same fields, and the same
/// defaults.
pub proof fn lemma_merge_tables_idempotent<K>(
    base: Map<K, CommandConfigView>,
    incoming: Map<K, CommandConfigView>,
)
    ensures
        merge_tables(merge_tables(base, incoming), incoming) == merge_tables(base, incoming),
{
    let once = merge_tables(base, incoming);
    let twice = merge_tables(once, incoming);
    assert forall|key: K| once.contains_key(key) implies #[trigger] twice[key] == once[key] by {
        if incoming.contains_key(key) {
            if base.contains_key(key) {
                lemma_merge_config_idempotent(base[key], incoming[key]);
            } else {
                lemma_merge_config_idempotent(empty_config(), incoming[key]);
            }
        }
    }
    assert(twice =~= once);
}

/// The merge is biased to the right: a preset of `incoming` has, after the
/// merge, the command of `incoming`, whatever `base` had under its name.
pub proof fn lemma_merge_tables_right_bias<K>(
    base: Map<K, CommandConfigView>,
    incoming: Map<K, CommandConfigView>,
    key: K,
    name: Seq<char>,
)
    requires
        incoming.contains_key(key),
        incoming[key].configs.contains_key(name),
    ensures
        merge_tables(base, incoming).contains_key(key),
        merge_tables(base, incoming)[key].configs.contains_key(name),
        merge_tables(base, incoming)[key].configs[name].command
            == incoming[key].configs[name].command,
        merge_tables(base, incoming)[key].configs[name].command_type
            == incoming[key].configs[name].command_type,
        merge_tables(base, incoming)[key].configs[name].sub_command
            == incoming[key].configs[name].sub_command,
{
}

/// Under a merge the environment of a preset never shrinks: where both sides
/// have the preset and their environments are finite, the merged one has at
/// least as many variables as either.
pub proof fn lemma_merge_tables_env_never_shrinks<K>(
    base: Map<K, CommandConfigView>,
    incoming: Map<K, CommandConfigView>,
    key: K,
    name: Seq<char>,
)
    requires
        base.contains_key(key),
        base[key].configs.contains_key(name),
        incoming.contains_key(key),
        incoming[key].configs.contains_key(name),
        base[key].configs[name].env.dom().finite(),
        incoming[key].configs[name].env.dom().finite(),
    ensures
        merge_tables(base, incoming)[key].configs[name].env.len()
            >= base[key].configs[name].env.len(),
        merge_tables(base, incoming)[key].configs[name].env.len()
            >= incoming[key].configs[name].env.len(),
{
    lemma_merge_details_never_shrinks(base[key].configs[name], incoming[key].configs[name]);
}

/// Plucking a name that only one context has leaves only that context, with
/// the name as its default and the preset as its only one.
pub proof fn lemma_pluck_single_context<K>(
    tables: Map<K, CommandConfigView>,
    key: K,
    name: Seq<char>,
)
    requires
        tables.contains_key(key),
        tables[key].configs.contains_key(name),
        forall|other: K|
            other != key && tables.contains_key(other) ==> !(#[trigger] tables[other]).configs.contains_key(
                name,
            ),
    ensures
        pluck_tables(tables, name).dom() == Set::<K>::empty().insert(key),
        pluck_tables(tables, name)[key].default == name,
        pluck_tables(tables, name)[key].configs == Map::<Seq<char>, CommandDetailsView>::empty().insert(
            name,
            tables[key].configs[name],
        ),
{
    assert(pluck_tables(tables, name).dom() =~= Set::<K>::empty().insert(key));
}

/// Plucking keeps a context exactly where it has the preset, and what it
/// keeps there is that preset alone, as the default.
pub proof fn lemma_pluck_tables<K>(tables: Map<K, CommandConfigView>, key: K, name: Seq<char>)
    ensures
        pluck_tables(tables, name).contains_key(key) == (tables.contains_key(key)
            && tables[key].configs.contains_key(name)),
        pluck_tables(tables, name).contains_key(key) ==> pluck_tables(tables, name)[key].default
            == name && pluck_tables(tables, name)[key].configs.dom() == Set::<
            Seq<char>,
        >::empty().insert(name) && pluck_tables(tables, name)[key].configs[name]
            == tables[key].configs[name],
{
    if pluck_tables(tables, name).contains_key(key) {
        assert(pluck_tables(tables, name)[key].configs.dom() =~= Set::<Seq<char>>::empty().insert(
            name,
        ));
    }
}

/// The names of the presets of a slot in the order in which its table stores
/// them; none for an empty slot.
pub open spec fn slot_keys(slot: Option<CommandConfig>) -> Seq<Seq<char>> {
    match slot {
        Some(table) => table.configs.keys(),
        None => Seq::empty(),
    }
}

/// A copy of a slot.
fn duplicate_slot(slot: &Option<CommandConfig>) -> (copy: Option<CommandConfig>)
    ensures
        copy is Some == slot is Some,
        copy is Some ==> copy->0@ == slot->0@,
{
    match slot {
        Some(config) => Some(config.duplicate()),
        None => None,
    }
}

/// Merges the slot `incoming` into the slot `base`: an empty `incoming`
/// changes nothing, and an empty `base` counts as the empty table. Says
/// whether `incoming` had a default that was not taken over.
pub(crate) fn merge_slot(
    base: &mut Option<CommandConfig>,
    incoming: &Option<CommandConfig>,
) -> (stale: bool)
    ensures
        stale == (incoming is Some && !promotes_default(
            if *old(base) is Some {
                old(base)->0@
            } else {
                empty_config()
            },
            incoming->0@,
        )),
        incoming is None ==> *final(base) == *old(base),
        incoming is Some ==> *final(base) is Some && final(base)->0@ == merge_config(
            if *old(base) is Some {
                old(base)->0@
            } else {
                empty_config()
            },
            incoming->0@,
        ),
        slot_keys(*final(base)) == with_new(slot_keys(*old(base)), slot_keys(*incoming)),
{
    match incoming {
        Some(table) => {
            if base.is_none() {
                *base = Some(CommandConfig::default());
            }
            let mut merged = base.take().unwrap();
            let promoted = merged.merge_from(table);
            *base = Some(merged);
            !promoted
        },
        None => false,
    }
}

/// The slot that holds only the preset `name` of `slot`; empty where `slot`
/// is empty or has no such preset.
pub(crate) fn pluck_slot(slot: &Option<CommandConfig>, name: &str) -> (plucked: Option<
    CommandConfig,
>)
    ensures
        plucked is Some == (slot is Some && slot->0@.configs.contains_key(name@)),
        plucked is Some ==> Some(plucked->0@) == pluck_config(slot->0@, name@),
        plucked is Some ==> slot_keys(plucked) == seq![name@],
{
    match slot {
        Some(config) => config.pluck(name),
        None => None,
    }
}

impl Default for Context {
    fn default() -> (context: Self)
        ensures
            context@ == default_tables(),
    {
        let context = Context {
            run: Some(CommandConfig::with_context(CommandContext::Run)),
            test: Some(CommandConfig::with_context(CommandContext::Test)),
            build: Some(CommandConfig::with_context(CommandContext::Build)),
            bench: Some(CommandConfig::with_context(CommandContext::Bench)),
            script: None,
        };
        assert(context@ =~= default_tables());
        context
    }
}

impl Duplicate for Context {
    fn duplicate(&self) -> (copy: Self) {
        let copy = Context {
            run: duplicate_slot(&self.run),
            test: duplicate_slot(&self.test),
            build: duplicate_slot(&self.build),
            bench: duplicate_slot(&self.bench),
            script: duplicate_slot(&self.script),
        };
        assert(copy@ =~= self@);
        copy
    }
}

impl Clone for Context {
    fn clone(&self) -> (copy: Self)
        ensures
            copy@ == self@,
    {
        self.duplicate()
    }
}

impl Context {
    /// The slot of `context`.
    pub open spec fn slot(&self, context: CommandContext) -> Option<CommandConfig> {
        match context {
            CommandContext::Run => self.run,
            CommandContext::Test => self.test,
            CommandContext::Build => self.build,
            CommandContext::Bench => self.bench,
            CommandContext::Script => self.script,
        }
    }

    /// The configuration without any context.
    pub fn empty() -> (context: Self)
        ensures
            context@ == Map::<CommandContext, CommandConfigView>::empty(),
    {
        let context = Context { run: None, test: None, build: None, bench: None, script: None };
        assert(context@ =~= Map::<CommandContext, CommandConfigView>::empty());
        context
    }

    /// The table of `context`, if it has one.
    pub fn get_config(&self, context: CommandContext) -> (found: Option<&CommandConfig>)
        ensures
            found is Some == self@.contains_key(context),
            found is Some ==> found->0@ == self@[context],
            found is Some ==> Some(*found->0) == self.slot(context),
    {
        match context {
            CommandContext::Run => self.run.as_ref(),
            CommandContext::Test => self.test.as_ref(),
            CommandContext::Build => self.build.as_ref(),
            CommandContext::Bench => self.bench.as_ref(),
            CommandContext::Script => self.script.as_ref(),
        }
    }

    /// The names of the presets of `context` in the order in which its table
    /// stores them; none where the context has no table.
    pub open spec fn key_order(&self, context: CommandContext) -> Seq<Seq<char>> {
        slot_keys(self.slot(context))
    }

    /// The names of the presets of `context`, each once, in the order in
    /// which its table stores them; none where the context has no table.
    pub fn get_configs(&self, context: CommandContext) -> (names: Vec<String>)
        ensures
            texts_of(names@) == self.key_order(context),
            texts_of(names@).no_duplicates(),
            texts_of(names@).to_set() == preset_names(self@, context),
    {
        match self.get_config(context) {
            Some(config) => config.keys(),
            None => {
                let names: Vec<String> = Vec::new();
                assert(texts_of(names@) =~= Seq::<Seq<char>>::empty());
                assert(texts_of(names@).to_set() =~= Set::<Seq<char>>::empty());
                names
            },
        }
    }

    /// Makes `key` the default of `context`. Fails with `ConfigKeyNotFound`,
    /// and changes nothing, where the context has no table or its table has
    /// no preset under `key`.
    pub fn set_default_config(&mut self, context: CommandContext, key: &str) -> (outcome: Result<
        (),
        ConfigError,
    >)
        ensures
            match outcome {
                Ok(()) => {
                    &&& preset_names(old(self)@, context).contains(key@)
                    &&& final(self)@ == promote(old(self)@, context, key@)
                    &&& forall|any: CommandContext|
                        final(self).key_order(any) == old(self).key_order(any)
                },
                Err(error) => {
                    &&& !preset_names(old(self)@, context).contains(key@)
                    &&& final(self)@ == old(self)@
                    &&& error@ == ConfigErrorView::ConfigKeyNotFound(key@)
                },
            },
    {
        let known = match self.get_config(context) {
            Some(config) => config.configs.contains_key(key),
            None => false,
        };
        if known {
            let config = self.get_or_default_config(context);
            config.default = String::from_str(key);
            proof {
                assert forall|any: CommandContext| self.key_order(any) == old(self).key_order(
                    any,
                ) by {
                    if any != context {
                        assert(self.slot(any) == old(self).slot(any));
                    }
                }
            }
            Ok(())
        } else {
            Err(ConfigError::ConfigKeyNotFound(String::from_str(key)))
        }
    }

    /// The preset `name` of `context`. A context without a table answers
    /// from its conventional table.
    pub fn get_command_config(&self, context: CommandContext, name: &str) -> (found: Option<
        CommandDetails,
    >)
        ensures
            match found {
                Some(details) => table_or_seed(self@, context).configs.contains_key(name@)
                    && details@ == table_or_seed(self@, context).configs[name@],
                None => !table_or_seed(self@, context).configs.contains_key(name@),
            },
    {
        match self.get_config(context) {
            Some(config) => match config.get(name) {
                Some(details) => Some(details.duplicate()),
                None => None,
            },
            None => {
                let seeded = CommandConfig::with_context(context);
                match seeded.get(name) {
                    Some(details) => Some(details.duplicate()),
                    None => None,
                }
            },
        }
    }

    /// The table of `context`, for the caller to change. A context without a
    /// table gets the empty table first, not its conventional one. What the
    /// caller leaves in the table is the table of `context` afterwards; the
    /// other contexts are untouched.
    pub fn get_or_default_config(&mut self, context: CommandContext) -> (config: &mut CommandConfig)
        ensures
            config@ == if old(self)@.contains_key(context) {
                old(self)@[context]
            } else {
                empty_config()
            },
            old(self).slot(context) matches Some(table) ==> *config == table,
            old(self).slot(context) is None ==> config.configs.keys() == Seq::<Seq<char>>::empty(),
            final(self).slot(context) == Some(*final(config)),
            forall|other: CommandContext|
                other != context ==> final(self).slot(other) == old(self).slot(other),
            final(self)@ == old(self)@.insert(context, final(config)@),
    {
        let ghost before = *self;
        assert forall|after: Context|
            after.slot(context) is Some && (forall|other: CommandContext|
                other != context ==> after.slot(other) == before.slot(other)) implies #[trigger] after@
            == before@.insert(context, after.slot(context)->0@) by {
            assert(after@ =~= before@.insert(context, after.slot(context)->0@));
        }
        match context {
            CommandContext::Run => {
                if self.run.is_none() {
                    self.run = Some(CommandConfig::default());
                }
                self.run.as_mut().unwrap()
            },
            CommandContext::Test => {
                if self.test.is_none() {
                    self.test = Some(CommandConfig::default());
                }
                self.test.as_mut().unwrap()
            },
            CommandContext::Build => {
                if self.build.is_none() {
                    self.build = Some(CommandConfig::default());
                }
                self.build.as_mut().unwrap()
            },
            CommandContext::Bench => {
                if self.bench.is_none() {
                    self.bench = Some(CommandConfig::default());
                }
                self.bench.as_mut().unwrap()
            },
            CommandContext::Script => {
                if self.script.is_none() {
                    self.script = Some(CommandConfig::default());
                }
                self.script.as_mut().unwrap()
            },
        }
    }
}

} // verus!

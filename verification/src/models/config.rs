//! The root of the configuration and its merge engine.

use vstd::prelude::*;
use crate::collections::string_map::with_new;
use crate::collections::Duplicate;
use crate::errors::{ConfigError, ConfigErrorView};
use crate::models::cargo_context::CommandContext;
use crate::models::command_config::CommandConfigView;
use crate::models::command_details::CommandDetails;
use crate::models::context::{
    default_tables, find_preset, merge_slot, merge_tables, pluck_slot, pluck_tables,
    preset_names, promote, stale_defaults, Context,
};

verus! {

/// The whole configuration: the presets of every context.
///
/// Its view is that of its [`Context`]: the tables of the contexts that have
/// one, by context.
#[derive(Debug)]
pub struct Config {
    pub context: Context,
}

impl View for Config {
    type V = Map<CommandContext, CommandConfigView>;

    open spec fn view(&self) -> Map<CommandContext, CommandConfigView> {
        self.context@
    }
}

impl Default for Config {
    fn default() -> (config: Self)
        ensures
            config@ == default_tables(),
    {
        Config { context: Context::default() }
    }
}

impl Duplicate for Config {
    fn duplicate(&self) -> (copy: Self) {
        Config { context: self.context.duplicate() }
    }
}

impl Clone for Config {
    fn clone(&self) -> (copy: Self)
        ensures
            copy@ == self@,
    {
        self.duplicate()
    }
}

/// Appends `context` to `noted` where it is `flagged`.
fn note(noted: &mut Vec<CommandContext>, context: CommandContext, flagged: bool)
    requires
        old(noted)@.no_duplicates(),
        !old(noted)@.contains(context),
    ensures
        final(noted)@.no_duplicates(),
        forall|any: CommandContext|
            final(noted)@.contains(any) == (old(noted)@.contains(any) || (flagged && any
                == context)),
{
    if flagged {
        let ghost before = noted@;
        noted.push(context);
        assert forall|any: CommandContext| noted@.contains(any) == (before.contains(any) || any
            == context) by {
            if before.contains(any) {
                let k = choose|k: int| 0 <= k < before.len() && before[k] == any;
                assert(noted@[k] == any);
            }
            if any == context {
                assert(noted@[before.len() as int] == any);
            }
        }
        assert forall|i: int, j: int|
            0 <= i < noted@.len() && 0 <= j < noted@.len() && i != j implies noted@[i]
            != noted@[j] by {
            if i < before.len() && j < before.len() {
            } else if i < before.len() {
                assert(before.contains(before[i]));
            } else {
                assert(before.contains(before[j]));
            }
        }
    }
}

impl Config {
    /// The configuration without any context.
    pub fn empty() -> (config: Self)
        ensures
            config@ == Map::<CommandContext, CommandConfigView>::empty(),
    {
        Config { context: Context::empty() }
    }

    /// Merges `other` into this configuration; where both say something,
    /// `other` wins.
    ///
    /// Each context of `other` is merged into the same context here, which
    /// starts as the empty table where it was absent. Presets are merged by
    /// name, field by field where both have the name. At last the default of
    /// `other`'s table becomes the default where the merged table has a
    /// preset of that name; where it has none, the default held stays, and
    /// the context is among those returned, for the caller to warn about.
    pub fn merge(&mut self, other: Config) -> (stale: Vec<CommandContext>)
        ensures
            final(self)@ == merge_tables(old(self)@, other@),
            stale@.no_duplicates(),
            stale@.to_set() == stale_defaults(old(self)@, other@),
            forall|context: CommandContext|
                final(self).context.key_order(context) == with_new(
                    old(self).context.key_order(context),
                    #[trigger] other.context.key_order(context),
                ),
    {
        let flags = self.merge_slots(&other);
        let mut stale: Vec<CommandContext> = Vec::new();
        note(&mut stale, CommandContext::Run, flags.0);
        note(&mut stale, CommandContext::Test, flags.1);
        note(&mut stale, CommandContext::Build, flags.2);
        note(&mut stale, CommandContext::Bench, flags.3);
        note(&mut stale, CommandContext::Script, flags.4);
        proof {
            let expected = stale_defaults(old(self)@, other@);
            assert forall|any: CommandContext| stale@.contains(any) == expected.contains(any) by {
                match any {
                    CommandContext::Run => {},
                    CommandContext::Test => {},
                    CommandContext::Build => {},
                    CommandContext::Bench => {},
                    CommandContext::Script => {},
                }
            }
            assert(stale@.to_set() =~= expected);
        }
        stale
    }

    /// Merges each slot of `other` into the same slot here; says of each
    /// context, in the order run, test, build, bench and script, whether
    /// `other` had a default there that was not taken over.
    fn merge_slots(&mut self, other: &Config) -> (flags: (bool, bool, bool, bool, bool))
        ensures
            final(self)@ == merge_tables(old(self)@, other@),
            forall|context: CommandContext|
                final(self).context.key_order(context) == with_new(
                    old(self).context.key_order(context),
                    #[trigger] other.context.key_order(context),
                ),
            flags.0 == stale_defaults(old(self)@, other@).contains(CommandContext::Run),
            flags.1 == stale_defaults(old(self)@, other@).contains(CommandContext::Test),
            flags.2 == stale_defaults(old(self)@, other@).contains(CommandContext::Build),
            flags.3 == stale_defaults(old(self)@, other@).contains(CommandContext::Bench),
            flags.4 == stale_defaults(old(self)@, other@).contains(CommandContext::Script),
    {
        let run = merge_slot(&mut self.context.run, &other.context.run);
        let test = merge_slot(&mut self.context.test, &other.context.test);
        let build = merge_slot(&mut self.context.build, &other.context.build);
        let bench = merge_slot(&mut self.context.bench, &other.context.bench);
        let script = merge_slot(&mut self.context.script, &other.context.script);
        assert(self@ =~= merge_tables(old(self)@, other@));
        (run, test, build, bench, script)
    }

    /// The configuration that holds, for every context with a preset `name`,
    /// only that preset, as the context's default. A context without such a
    /// preset is absent from it.
    pub fn pluck(&self, name: &str) -> (plucked: Config)
        ensures
            plucked@ == pluck_tables(self@, name@),
            forall|context: CommandContext|
                plucked@.contains_key(context) ==> #[trigger] plucked.context.key_order(context)
                    == seq![name@],
    {
        let plucked = Config {
            context: Context {
                run: pluck_slot(&self.context.run, name),
                test: pluck_slot(&self.context.test, name),
                build: pluck_slot(&self.context.build, name),
                bench: pluck_slot(&self.context.bench, name),
                script: pluck_slot(&self.context.script, name),
            },
        };
        assert(plucked@ =~= pluck_tables(self@, name@));
        plucked
    }

    /// The preset `name` of `context`, if there is one.
    pub fn find(&self, context: CommandContext, name: &str) -> (found: Option<&CommandDetails>)
        ensures
            match found {
                Some(details) => find_preset(self@, context, name@) == Some(details@),
                None => find_preset(self@, context, name@) is None,
            },
    {
        match self.context.get_config(context) {
            Some(config) => config.get(name),
            None => None,
        }
    }

    /// Makes `name` the default of `context`. Fails with `ConfigKeyNotFound`,
    /// and changes nothing, where the context has no preset of that name.
    pub fn set_default(&mut self, context: CommandContext, name: &str) -> (outcome: Result<
        (),
        ConfigError,
    >)
        ensures
            match outcome {
                Ok(()) => {
                    &&& preset_names(old(self)@, context).contains(name@)
                    &&& final(self)@ == promote(old(self)@, context, name@)
                    &&& forall|any: CommandContext|
                        final(self).context.key_order(any) == old(self).context.key_order(any)
                },
                Err(error) => {
                    &&& !preset_names(old(self)@, context).contains(name@)
                    &&& final(self)@ == old(self)@
                    &&& error@ == ConfigErrorView::ConfigKeyNotFound(name@)
                },
            },
    {
        self.context.set_default_config(context, name)
    }

    /// The default of `context`; nothing where the context has no table.
    pub fn get_default(&self, context: CommandContext) -> (default: Option<&str>)
        ensures
            default is Some == self@.contains_key(context),
            default is Some ==> default->0@ == self@[context].default,
    {
        match self.context.get_config(context) {
            Some(config) => Some(config.default.as_str()),
            None => None,
        }
    }
}

} // verus!

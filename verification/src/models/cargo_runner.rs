//! The configuration keyed by the names of the contexts.

use vstd::prelude::*;
use vstd::string::StringExecFns;
use crate::collections::string_map::{lemma_push_keeps_distinct, texts_of};
use crate::collections::string_set::lemma_push_to_set;
use crate::collections::{Duplicate, StringMap};
use crate::errors::{ConfigError, ConfigErrorView};
use crate::models::cargo_context::CommandContext;
use crate::models::command_config::{
    promotes_default, seed_config, CommandConfig, CommandConfigView,
};
use crate::models::command_details::CommandDetails;
use crate::models::context::{
    find_preset, merge_tables, pluck_tables, preset_names, promote, stale_defaults,
    table_or_empty,
};

verus! {

/// The presets of the contexts, by the name of the context.
///
/// This is the configuration as a file presents it: a context is known by
/// its name, and a name outside the five contexts is kept as it is. Its view
/// maps the name of each context that it holds to the context's table.
#[derive(Debug)]
pub struct CargoRunner {
    contexts: StringMap<CommandConfig>,
}

impl View for CargoRunner {
    type V = Map<Seq<char>, CommandConfigView>;

    closed spec fn view(&self) -> Map<Seq<char>, CommandConfigView> {
        self.contexts@
    }
}

/// The tables of a fresh runner: the conventional table of each cargo
/// context under the context's name.
pub open spec fn default_runner_tables() -> Map<Seq<char>, CommandConfigView> {
    Map::<Seq<char>, CommandConfigView>::empty().insert(
        CommandContext::Run.spec_name(),
        seed_config(CommandContext::Run),
    ).insert(CommandContext::Test.spec_name(), seed_config(CommandContext::Test)).insert(
        CommandContext::Build.spec_name(),
        seed_config(CommandContext::Build),
    ).insert(CommandContext::Bench.spec_name(), seed_config(CommandContext::Bench))
}

impl Default for CargoRunner {
    fn default() -> (runner: Self)
        ensures
            runner@ == default_runner_tables(),
    {
        let mut contexts = StringMap::new();
        contexts.insert(
            String::from_str(CommandContext::Run.name()),
            CommandConfig::with_context(CommandContext::Run),
        );
        contexts.insert(
            String::from_str(CommandContext::Test.name()),
            CommandConfig::with_context(CommandContext::Test),
        );
        contexts.insert(
            String::from_str(CommandContext::Build.name()),
            CommandConfig::with_context(CommandContext::Build),
        );
        contexts.insert(
            String::from_str(CommandContext::Bench.name()),
            CommandConfig::with_context(CommandContext::Bench),
        );
        CargoRunner { contexts }
    }
}

impl Duplicate for CargoRunner {
    fn duplicate(&self) -> (copy: Self) {
        CargoRunner { contexts: self.contexts.duplicate() }
    }
}

impl Clone for CargoRunner {
    fn clone(&self) -> (copy: Self)
        ensures
            copy@ == self@,
    {
        self.duplicate()
    }
}

impl CargoRunner {
    /// The runner without any context.
    pub fn empty() -> (runner: Self)
        ensures
            runner@ == Map::<Seq<char>, CommandConfigView>::empty(),
    {
        CargoRunner { contexts: StringMap::new() }
    }

    /// The names of the contexts held, each once.
    pub fn contexts(&self) -> (names: Vec<String>)
        ensures
            texts_of(names@).no_duplicates(),
            texts_of(names@).to_set() == self@.dom(),
    {
        self.contexts.key_list()
    }

    /// The table held under the context name `name`, if there is one.
    pub fn get(&self, name: &str) -> (found: Option<&CommandConfig>)
        ensures
            found is Some == self@.contains_key(name@),
            found is Some ==> found->0@ == self@[name@],
    {
        self.contexts.get(name)
    }

    /// Stores `table` under the context name `name`, replacing the table
    /// held there.
    pub fn insert(&mut self, name: &str, table: CommandConfig)
        ensures
            final(self)@ == old(self)@.insert(name@, table@),
    {
        self.contexts.insert(String::from_str(name), table);
    }

    /// Makes `name` the default of `context`. Fails with `ConfigKeyNotFound`,
    /// and changes nothing, where the context has no preset of that name.
    pub fn set_default(&mut self, context: CommandContext, name: &str) -> (outcome: Result<
        (),
        ConfigError,
    >)
        ensures
            match outcome {
                Ok(()) => {
                    &&& preset_names(old(self)@, context.spec_name()).contains(name@)
                    &&& final(self)@ == promote(old(self)@, context.spec_name(), name@)
                },
                Err(error) => {
                    &&& !preset_names(old(self)@, context.spec_name()).contains(name@)
                    &&& final(self)@ == old(self)@
                    &&& error@ == ConfigErrorView::ConfigKeyNotFound(name@)
                },
            },
    {
        let key = context.name();
        let known = match self.contexts.get(key) {
            Some(table) => table.configs.contains_key(name),
            None => false,
        };
        if known {
            let mut table = self.contexts.get(key).unwrap().duplicate();
            table.default = String::from_str(name);
            self.contexts.insert(String::from_str(key), table);
            assert(self@ =~= promote(old(self)@, context.spec_name(), name@));
            Ok(())
        } else {
            Err(ConfigError::ConfigKeyNotFound(String::from_str(name)))
        }
    }

    /// The default of `context`; nothing where the context has no table.
    pub fn get_default(&self, context: CommandContext) -> (default: Option<&str>)
        ensures
            default is Some == self@.contains_key(context.spec_name()),
            default is Some ==> default->0@ == self@[context.spec_name()].default,
    {
        match self.contexts.get(context.name()) {
            Some(table) => Some(table.default.as_str()),
            None => None,
        }
    }

    /// The preset `name` of `context`, if there is one.
    pub fn find(&self, context: CommandContext, name: &str) -> (found: Option<&CommandDetails>)
        ensures
            match found {
                Some(details) => find_preset(self@, context.spec_name(), name@) == Some(details@),
                None => find_preset(self@, context.spec_name(), name@) is None,
            },
    {
        match self.contexts.get(context.name()) {
            Some(table) => table.get(name),
            None => None,
        }
    }

    /// The runner that holds, for every context with a preset `name`, only
    /// that preset, as the context's default. A context without such a
    /// preset is absent from it.
    pub fn pluck(&self, name: &str) -> (plucked: CargoRunner)
        ensures
            plucked@ == pluck_tables(self@, name@),
    {
        let count = self.contexts.len();
        let ghost names = self.contexts.keys();
        let mut found: StringMap<CommandConfig> = StringMap::new();
        let mut i: usize = 0;
        while i < count
            invariant
                0 <= i <= count,
                count == names.len(),
                names == self.contexts.keys(),
                names.no_duplicates(),
                names.to_set() == self.contexts@.dom(),
                found@ == pluck_tables(
                    self.contexts@.restrict(names.take(i as int).to_set()),
                    name@,
                ),
            decreases count - i,
        {
            let ghost done = names.take(i as int);
            let ghost before = found@;
            let key = self.contexts.key_at(i);
            let table = self.contexts.value_at(i);
            match table.pluck(name) {
                Some(single) => {
                    found.insert(key.clone(), single);
                },
                None => {},
            }
            proof {
                let next = names.take(i + 1);
                assert(next =~= done.push(key@));
                lemma_push_to_set(done, key@);
                assert(found@ =~= pluck_tables(self.contexts@.restrict(next.to_set()), name@));
            }
            i += 1;
        }
        proof {
            assert(names.take(count as int) =~= names);
            assert(self.contexts@.restrict(names.to_set()) =~= self.contexts@);
        }
        CargoRunner { contexts: found }
    }

    /// Merges `other` into this runner; where both say something, `other`
    /// wins.
    ///
    /// Each context of `other` is merged into the context of the same name
    /// here, which starts as the empty table where it was absent. Presets
    /// are merged by name, field by field where both have the name. At last
    /// the default of `other`'s table becomes the default where the merged
    /// table has a preset of that name; where it has none, the default held
    /// stays, and the name of the context is among those returned, for the
    /// caller to warn about.
    pub fn merge(&mut self, other: CargoRunner) -> (stale: Vec<String>)
        ensures
            final(self)@ == merge_tables(old(self)@, other@),
            texts_of(stale@).no_duplicates(),
            texts_of(stale@).to_set() == stale_defaults(old(self)@, other@),
    {
        let count = other.contexts.len();
        let ghost names = other.contexts.keys();
        let ghost base = self.contexts@;
        let mut stale: Vec<String> = Vec::new();
        let mut i: usize = 0;
        while i < count
            invariant
                0 <= i <= count,
                count == names.len(),
                names == other.contexts.keys(),
                names.no_duplicates(),
                names.to_set() == other.contexts@.dom(),
                self.contexts@ == merge_tables(
                    base,
                    other.contexts@.restrict(names.take(i as int).to_set()),
                ),
                texts_of(stale@).no_duplicates(),
                forall|name: Seq<char>|
                    texts_of(stale@).contains(name) <==> names.take(i as int).contains(name)
                        && !promotes_default(table_or_empty(base, name), other.contexts@[name]),
            decreases count - i,
        {
            let ghost done = names.take(i as int);
            let ghost noted = texts_of(stale@);
            let key = other.contexts.key_at(i);
            let incoming = other.contexts.value_at(i);
            let mut table = match self.contexts.get(key.as_str()) {
                Some(existing) => existing.duplicate(),
                None => CommandConfig::default(),
            };
            proof {
                assert(!done.contains(key@)) by {
                    if done.contains(key@) {
                        let k = choose|k: int| 0 <= k < done.len() && done[k] == key@;
                        assert(names[k] == names[i as int]);
                    }
                }
                assert(table@ == table_or_empty(base, key@));
            }
            let promoted = table.merge_from(incoming);
            assert(promoted == promotes_default(table_or_empty(base, key@), other.contexts@[key@]));
            self.contexts.insert(key.clone(), table);
            if !promoted {
                stale.push(key.clone());
            }
            proof {
                let next = names.take(i + 1);
                assert(next =~= done.push(key@));
                lemma_push_to_set(done, key@);
                assert(!done.contains(key@)) by {
                    if done.contains(key@) {
                        let k = choose|k: int| 0 <= k < done.len() && done[k] == key@;
                        assert(names[k] == names[i as int]);
                    }
                }
                assert(names.contains(key@));
                assert(self.contexts@ =~= merge_tables(
                    base,
                    other.contexts@.restrict(next.to_set()),
                ));
                assert forall|name: Seq<char>| next.contains(name) == (done.contains(name) || name
                    == key@) by {
                    assert(next.to_set().contains(name) == done.to_set().insert(key@).contains(
                        name,
                    ));
                }
                if !promoted {
                    assert(texts_of(stale@) =~= noted.push(key@));
                    assert(!noted.contains(key@));
                    lemma_push_keeps_distinct(noted, key@);
                    assert forall|name: Seq<char>| texts_of(stale@).contains(name) == (
                    noted.contains(name) || name == key@) by {
                        assert(texts_of(stale@).to_set().contains(name) == noted.to_set().insert(
                            key@,
                        ).contains(name)) by {
                            lemma_push_to_set(noted, key@);
                        }
                    }
                } else {
                    assert(texts_of(stale@) =~= noted);
                }
                assert forall|name: Seq<char>|
                    texts_of(stale@).contains(name) <==> next.contains(name) && !promotes_default(
                        table_or_empty(base, name),
                        other.contexts@[name],
                    ) by {
                    assert(next.contains(name) == (done.contains(name) || name == key@));
                    if promoted {
                        assert(texts_of(stale@).contains(name) == noted.contains(name));
                    } else {
                        assert(texts_of(stale@).contains(name) == (noted.contains(name) || name
                            == key@));
                    }
                    assert(noted.contains(name) <==> done.contains(name) && !promotes_default(
                        table_or_empty(base, name),
                        other.contexts@[name],
                    ));
                }
            }
            i += 1;
        }
        proof {
            assert(names.take(count as int) =~= names);
            assert(other.contexts@.restrict(names.to_set()) =~= other.contexts@);
            assert(texts_of(stale@).to_set() =~= stale_defaults(old(self)@, other@));
        }
        stale
    }
}

} // verus!

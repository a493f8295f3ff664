//! One named preset and the field-by-field merge of two presets.

use vstd::prelude::*;
use vstd::string::StringExecFns;
use crate::collections::{Duplicate, StringMap, StringSet};
use crate::models::command_type::CommandType;

verus! {

/// One fully specified way to invoke a program.
///
/// A preset has no name of its own: it is known by the key under which a
/// context's table holds it.
#[derive(Debug)]
pub struct CommandDetails {
    /// How `command` and `sub_command` are put together when the preset runs.
    pub command_type: CommandType,
    /// The program, or the base cargo invocation.
    pub command: String,
    /// The toolchain to run cargo with, if one is chosen.
    pub toolchain: Option<String>,
    /// The cargo sub-command.
    pub sub_command: String,
    /// The action of the sub-command, if it has one.
    pub sub_action: String,
    /// Free-form trailing arguments.
    pub params: String,
    /// The build target, if one is chosen.
    pub target: Option<String>,
    /// The cargo features to switch on.
    pub features: StringSet,
    /// The sub-commands that the preset may be given.
    pub allowed_subcommands: StringSet,
    /// The environment of the launched process.
    pub env: StringMap<String>,
    /// Whether several instances may run at once.
    pub allow_multiple_instances: bool,
    /// Where the process is started.
    pub working_directory: String,
    /// The presets of the same context that have to run before this one.
    pub pre_command: StringSet,
}

/// A preset as plain values: each text as its characters, each collection
/// as a set or map of texts.
pub ghost struct CommandDetailsView {
    pub command_type: CommandType,
    pub command: Seq<char>,
    pub toolchain: Option<Seq<char>>,
    pub sub_command: Seq<char>,
    pub sub_action: Seq<char>,
    pub params: Seq<char>,
    pub target: Option<Seq<char>>,
    pub features: Set<Seq<char>>,
    pub allowed_subcommands: Set<Seq<char>>,
    pub env: Map<Seq<char>, Seq<char>>,
    pub allow_multiple_instances: bool,
    pub working_directory: Seq<char>,
    pub pre_command: Set<Seq<char>>,
}

/// The characters of an optional text.
pub open spec fn optional_text(text: Option<String>) -> Option<Seq<char>> {
    match text {
        Some(t) => Some(t@),
        None => None,
    }
}

/// The preset in which every text and collection is empty, the type is
/// `Cargo` and nothing optional is chosen.
pub open spec fn blank_details() -> CommandDetailsView {
    CommandDetailsView {
        command_type: CommandType::Cargo,
        command: Seq::empty(),
        toolchain: None,
        sub_command: Seq::empty(),
        sub_action: Seq::empty(),
        params: Seq::empty(),
        target: None,
        features: Set::empty(),
        allowed_subcommands: Set::empty(),
        env: Map::empty(),
        allow_multiple_instances: false,
        working_directory: Seq::empty(),
        pre_command: Set::empty(),
    }
}

/// The incoming choice where there is one, else the one held.
pub open spec fn prefer_incoming(
    base: Option<Seq<char>>,
    incoming: Option<Seq<char>>,
) -> Option<Seq<char>> {
    if incoming is Some {
        incoming
    } else {
        base
    }
}

/// The merge of `incoming` into `base`.
///
/// Every field that a preset always has comes from `incoming`. An optional
/// field comes from `incoming` where it is chosen there and from `base`
/// otherwise. The sets are united, and so is the environment, in which the
/// value of `incoming` stands where both name a variable.
pub open spec fn merge_details(
    base: CommandDetailsView,
    incoming: CommandDetailsView,
) -> CommandDetailsView {
    CommandDetailsView {
        command_type: incoming.command_type,
        command: incoming.command,
        toolchain: prefer_incoming(base.toolchain, incoming.toolchain),
        sub_command: incoming.sub_command,
        sub_action: incoming.sub_action,
        params: incoming.params,
        target: prefer_incoming(base.target, incoming.target),
        features: base.features.union(incoming.features),
        allowed_subcommands: base.allowed_subcommands.union(incoming.allowed_subcommands),
        env: base.env.union_prefer_right(incoming.env),
        allow_multiple_instances: incoming.allow_multiple_instances,
        working_directory: incoming.working_directory,
        pre_command: base.pre_command.union(incoming.pre_command),
    }
}

impl View for CommandDetails {
    type V = CommandDetailsView;

    open spec fn view(&self) -> CommandDetailsView {
        CommandDetailsView {
            command_type: self.command_type,
            command: self.command@,
            toolchain: optional_text(self.toolchain),
            sub_command: self.sub_command@,
            sub_action: self.sub_action@,
            params: self.params@,
            target: optional_text(self.target),
            features: self.features@,
            allowed_subcommands: self.allowed_subcommands@,
            env: self.env@,
            allow_multiple_instances: self.allow_multiple_instances,
            working_directory: self.working_directory@,
            pre_command: self.pre_command@,
        }
    }
}

/// The command type of a preset that does not say one: `Cargo`.
pub fn default_command_type() -> (command_type: CommandType)
    ensures
        command_type == CommandType::Cargo,
{
    CommandType::Cargo
}

/// The sub-command of a preset that does not say one: `run`.
pub fn default_sub_command() -> (sub_command: String)
    ensures
        sub_command@ == "run"@,
{
    String::from_str("run")
}

/// The command of a preset that does not say one: the program of the
/// default command type, `cargo`.
pub fn default_command() -> (command: String)
    ensures
        command@ == CommandType::Cargo.spec_program(),
{
    CommandType::Cargo.program()
}

/// A copy of an optional text.
fn duplicate_optional(text: &Option<String>) -> (copy: Option<String>)
    ensures
        optional_text(copy) == optional_text(*text),
{
    match text {
        Some(t) => Some(t.clone()),
        None => None,
    }
}

impl Default for CommandDetails {
    fn default() -> (details: Self)
        ensures
            details@ == blank_details(),
    {
        CommandDetails {
            command_type: CommandType::Cargo,
            command: String::new(),
            toolchain: None,
            sub_command: String::new(),
            sub_action: String::new(),
            params: String::new(),
            target: None,
            features: StringSet::new(),
            allowed_subcommands: StringSet::new(),
            env: StringMap::new(),
            allow_multiple_instances: false,
            working_directory: String::new(),
            pre_command: StringSet::new(),
        }
    }
}

impl Duplicate for CommandDetails {
    fn duplicate(&self) -> (copy: Self) {
        CommandDetails {
            command_type: self.command_type,
            command: self.command.clone(),
            toolchain: duplicate_optional(&self.toolchain),
            sub_command: self.sub_command.clone(),
            sub_action: self.sub_action.clone(),
            params: self.params.clone(),
            target: duplicate_optional(&self.target),
            features: self.features.duplicate(),
            allowed_subcommands: self.allowed_subcommands.duplicate(),
            env: self.env.duplicate(),
            allow_multiple_instances: self.allow_multiple_instances,
            working_directory: self.working_directory.clone(),
            pre_command: self.pre_command.duplicate(),
        }
    }
}

impl Clone for CommandDetails {
    fn clone(&self) -> (copy: Self)
        ensures
            copy@ == self@,
    {
        self.duplicate()
    }
}

impl CommandDetails {
    /// Merges `incoming` into this preset, field by field.
    pub fn merge_from(&mut self, incoming: &CommandDetails)
        ensures
            final(self)@ == merge_details(old(self)@, incoming@),
            final(self).env@.len() >= old(self).env@.len(),
            final(self).env@.len() >= incoming.env@.len(),
    {
        self.command_type = incoming.command_type;
        self.command = incoming.command.clone();
        if incoming.toolchain.is_some() {
            self.toolchain = duplicate_optional(&incoming.toolchain);
        }
        self.sub_command = incoming.sub_command.clone();
        self.sub_action = incoming.sub_action.clone();
        self.params = incoming.params.clone();
        if incoming.target.is_some() {
            self.target = duplicate_optional(&incoming.target);
        }
        self.features.union_with(&incoming.features);
        self.allowed_subcommands.union_with(&incoming.allowed_subcommands);
        let ghost env_before = self.env@;
        let before = self.env.len();
        let other = incoming.env.len();
        self.env.extend_from(&incoming.env);
        let after = self.env.len();
        self.allow_multiple_instances = incoming.allow_multiple_instances;
        self.working_directory = incoming.working_directory.clone();
        self.pre_command.union_with(&incoming.pre_command);
        proof {
            lemma_env_union_grows(env_before, incoming.env@);
        }
    }
}

/// Merging the same preset in a second time changes nothing.
pub proof fn lemma_merge_details_idempotent(base: CommandDetailsView, incoming: CommandDetailsView)
    ensures
        merge_details(merge_details(base, incoming), incoming) == merge_details(base, incoming),
{
    let once = merge_details(base, incoming);
    let twice = merge_details(once, incoming);
    assert(twice.features =~= once.features);
    assert(twice.allowed_subcommands =~= once.allowed_subcommands);
    assert(twice.pre_command =~= once.pre_command);
    assert(twice.env =~= once.env);
}

/// Merging a preset into itself gives the preset.
pub proof fn lemma_merge_details_same(details: CommandDetailsView)
    ensures
        merge_details(details, details) == details,
{
    let merged = merge_details(details, details);
    assert(merged.features =~= details.features);
    assert(merged.allowed_subcommands =~= details.allowed_subcommands);
    assert(merged.pre_command =~= details.pre_command);
    assert(merged.env =~= details.env);
}

/// The merge is biased to the right: every field that a preset always has,
/// every optional field that `incoming` chooses and every environment
/// variable that `incoming` sets has the value of `incoming` afterwards.
pub proof fn lemma_merge_details_right_bias(base: CommandDetailsView, incoming: CommandDetailsView)
    ensures
        merge_details(base, incoming).command_type == incoming.command_type,
        merge_details(base, incoming).command == incoming.command,
        merge_details(base, incoming).sub_command == incoming.sub_command,
        merge_details(base, incoming).sub_action == incoming.sub_action,
        merge_details(base, incoming).params == incoming.params,
        merge_details(base, incoming).allow_multiple_instances
            == incoming.allow_multiple_instances,
        merge_details(base, incoming).working_directory == incoming.working_directory,
        incoming.toolchain is Some ==> merge_details(base, incoming).toolchain
            == incoming.toolchain,
        incoming.target is Some ==> merge_details(base, incoming).target == incoming.target,
        forall|name: Seq<char>| #[trigger]
            incoming.env.contains_key(name) ==> merge_details(base, incoming).env.contains_key(
                name,
            ) && merge_details(base, incoming).env[name] == incoming.env[name],
{
}

/// What a merge leaves untouched: an optional field that `incoming` does not
/// choose, and an environment variable that `incoming` does not set.
pub proof fn lemma_merge_details_keeps_unset(base: CommandDetailsView, incoming: CommandDetailsView)
    ensures
        incoming.toolchain is None ==> merge_details(base, incoming).toolchain == base.toolchain,
        incoming.target is None ==> merge_details(base, incoming).target == base.target,
        forall|name: Seq<char>| #[trigger]
            base.env.contains_key(name) && !incoming.env.contains_key(name) ==> merge_details(
                base,
                incoming,
            ).env.contains_key(name) && merge_details(base, incoming).env[name] == base.env[name],
{
}

/// The collections of a preset never shrink under a merge: each holds what
/// both sides held, and so a finite one has at least as many members
/// afterwards as on either side before.
pub proof fn lemma_merge_details_never_shrinks(
    base: CommandDetailsView,
    incoming: CommandDetailsView,
)
    ensures
        base.features.subset_of(merge_details(base, incoming).features),
        incoming.features.subset_of(merge_details(base, incoming).features),
        base.allowed_subcommands.subset_of(merge_details(base, incoming).allowed_subcommands),
        incoming.allowed_subcommands.subset_of(
            merge_details(base, incoming).allowed_subcommands,
        ),
        base.pre_command.subset_of(merge_details(base, incoming).pre_command),
        incoming.pre_command.subset_of(merge_details(base, incoming).pre_command),
        base.env.dom().subset_of(merge_details(base, incoming).env.dom()),
        incoming.env.dom().subset_of(merge_details(base, incoming).env.dom()),
        base.env.dom().finite() && incoming.env.dom().finite() ==> merge_details(
            base,
            incoming,
        ).env.len() >= base.env.len() && merge_details(base, incoming).env.len()
            >= incoming.env.len(),
        base.features.finite() && incoming.features.finite() ==> merge_details(
            base,
            incoming,
        ).features.len() >= base.features.len() && merge_details(base, incoming).features.len()
            >= incoming.features.len(),
        base.allowed_subcommands.finite() && incoming.allowed_subcommands.finite()
            ==> merge_details(base, incoming).allowed_subcommands.len()
            >= base.allowed_subcommands.len() && merge_details(
            base,
            incoming,
        ).allowed_subcommands.len() >= incoming.allowed_subcommands.len(),
        base.pre_command.finite() && incoming.pre_command.finite() ==> merge_details(
            base,
            incoming,
        ).pre_command.len() >= base.pre_command.len() && merge_details(
            base,
            incoming,
        ).pre_command.len() >= incoming.pre_command.len(),
{
    let merged = merge_details(base, incoming);
    if base.env.dom().finite() && incoming.env.dom().finite() {
        lemma_env_union_grows(base.env, incoming.env);
    }
    if base.features.finite() && incoming.features.finite() {
        lemma_union_grows(base.features, incoming.features);
    }
    if base.allowed_subcommands.finite() && incoming.allowed_subcommands.finite() {
        lemma_union_grows(base.allowed_subcommands, incoming.allowed_subcommands);
    }
    if base.pre_command.finite() && incoming.pre_command.finite() {
        lemma_union_grows(base.pre_command, incoming.pre_command);
    }
}

/// The union of two finite sets of texts has at least as many members as
/// either of them.
pub proof fn lemma_union_grows(base: Set<Seq<char>>, incoming: Set<Seq<char>>)
    requires
        base.finite(),
        incoming.finite(),
    ensures
        base.union(incoming).finite(),
        base.union(incoming).len() >= base.len(),
        base.union(incoming).len() >= incoming.len(),
{
    vstd::set_lib::lemma_len_subset(base, base.union(incoming));
    vstd::set_lib::lemma_len_subset(incoming, base.union(incoming));
}

/// The union of two finite environments has at least as many variables as
/// either of them.
pub proof fn lemma_env_union_grows(
    base: Map<Seq<char>, Seq<char>>,
    incoming: Map<Seq<char>, Seq<char>>,
)
    requires
        base.dom().finite(),
        incoming.dom().finite(),
    ensures
        base.union_prefer_right(incoming).dom().finite(),
        base.union_prefer_right(incoming).len() >= base.len(),
        base.union_prefer_right(incoming).len() >= incoming.len(),
{
    let union = base.union_prefer_right(incoming);
    assert(union.dom() =~= base.dom().union(incoming.dom()));
    vstd::set_lib::lemma_len_subset(base.dom(), union.dom());
    vstd::set_lib::lemma_len_subset(incoming.dom(), union.dom());
}

} // verus!

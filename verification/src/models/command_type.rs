//! How a preset's command line is interpreted.

use vstd::prelude::*;
use vstd::string::StringExecFns;
use crate::helpers::same_text;

verus! {

/// How a preset's command line is to be interpreted when it is launched.
#[derive(Clone, Copy, Debug, PartialEq, Eq, Hash, Structural)]
pub enum CommandType {
    /// A cargo invocation with one of cargo's own subcommands.
    Cargo,
    /// A cargo invocation with a registered extension subcommand.
    SubCommand,
    /// An arbitrary external program.
    Shell,
}

impl Default for CommandType {
    fn default() -> (kind: Self)
        ensures
            kind == CommandType::Cargo,
    {
        CommandType::Cargo
    }
}

impl CommandType {
    /// The name under which the type is written in persisted text.
    pub open spec fn spec_name(self) -> Seq<char> {
        match self {
            CommandType::Cargo => "cargo"@,
            CommandType::SubCommand => "subcommand"@,
            CommandType::Shell => "shell"@,
        }
    }

    /// The program that a preset of this type runs when none is given:
    /// `cargo` for both cargo types, none for a shell preset.
    pub open spec fn spec_program(self) -> Seq<char> {
        match self {
            CommandType::Cargo => "cargo"@,
            CommandType::SubCommand => "cargo"@,
            CommandType::Shell => Seq::<char>::empty(),
        }
    }

    /// The type that persisted text names: `cargo`, `subcommand` or `shell`;
    /// any other text stands for the default type, `Cargo`.
    pub open spec fn spec_from_name(name: Seq<char>) -> CommandType {
        if name == "subcommand"@ {
            CommandType::SubCommand
        } else if name == "shell"@ {
            CommandType::Shell
        } else {
            CommandType::Cargo
        }
    }

    /// The name under which the type is written in persisted text.
    pub fn name(&self) -> (name: &'static str)
        ensures
            name@ == self.spec_name(),
    {
        match self {
            CommandType::Cargo => "cargo",
            CommandType::SubCommand => "subcommand",
            CommandType::Shell => "shell",
        }
    }

    /// The program that a preset of this type runs when none is given.
    pub fn program(&self) -> (program: String)
        ensures
            program@ == self.spec_program(),
    {
        match self {
            CommandType::Cargo => String::from_str("cargo"),
            CommandType::SubCommand => String::from_str("cargo"),
            CommandType::Shell => String::new(),
        }
    }

    /// Reads a type from its persisted name.
    pub fn from_name(name: &str) -> (kind: Self)
        ensures
            kind == Self::spec_from_name(name@),
    {
        if same_text(name, "subcommand") {
            CommandType::SubCommand
        } else if same_text(name, "shell") {
            CommandType::Shell
        } else {
            CommandType::Cargo
        }
    }
}

/// Reading back the persisted name of a type gives the type.
pub proof fn lemma_name_round_trip(kind: CommandType)
    ensures
        CommandType::spec_from_name(kind.spec_name()) == kind,
{
    reveal_strlit("cargo");
    reveal_strlit("subcommand");
    reveal_strlit("shell");
    assert("cargo"@.len() == 5);
    assert("subcommand"@.len() == 10);
    assert("shell"@.len() == 5);
    assert("cargo"@[0] == 'c');
    assert("shell"@[0] == 's');
}

} // verus!

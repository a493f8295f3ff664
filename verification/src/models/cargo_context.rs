//! The invocation contexts.

use vstd::prelude::*;
use vstd::string::StringExecFns;
use crate::models::command_type::CommandType;

verus! {

/// One of the invocation contexts for which presets are kept.
#[derive(Clone, Copy, Debug, PartialEq, Eq, Hash, Structural)]
pub enum CommandContext {
    Run,
    Test,
    Build,
    Bench,
    /// A free-form script; also what an unrecognised context name stands for.
    Script,
}

impl Default for CommandContext {
    fn default() -> (context: Self)
        ensures
            context == CommandContext::Script,
    {
        CommandContext::Script
    }
}

/// The lowercase form of an ASCII letter; any other character is itself.
pub open spec fn lower_ascii(c: char) -> char {
    if 'A' <= c && c <= 'Z' {
        ((c as u8) + 32) as char
    } else {
        c
    }
}

/// Whether `text` is `word` when the case of ASCII letters is ignored.
pub open spec fn same_ignoring_ascii_case(text: Seq<char>, word: Seq<char>) -> bool {
    text.map_values(|c: char| lower_ascii(c)) == word.map_values(|c: char| lower_ascii(c))
}

impl CommandContext {
    /// The name of the context: `run`, `test`, `build`, `bench` or `script`.
    pub open spec fn spec_name(self) -> Seq<char> {
        match self {
            CommandContext::Run => "run"@,
            CommandContext::Test => "test"@,
            CommandContext::Build => "build"@,
            CommandContext::Bench => "bench"@,
            CommandContext::Script => "script"@,
        }
    }

    /// The context that `name` stands for: one of the four cargo contexts
    /// when `name` is its name in any ASCII case, and `Script` otherwise.
    pub open spec fn spec_from_name(name: Seq<char>) -> CommandContext {
        if same_ignoring_ascii_case(name, "run"@) {
            CommandContext::Run
        } else if same_ignoring_ascii_case(name, "test"@) {
            CommandContext::Test
        } else if same_ignoring_ascii_case(name, "build"@) {
            CommandContext::Build
        } else if same_ignoring_ascii_case(name, "bench"@) {
            CommandContext::Bench
        } else {
            CommandContext::Script
        }
    }

    /// Whether presets of this context are cargo invocations by convention.
    pub open spec fn is_cargo(self) -> bool {
        self != CommandContext::Script
    }

    /// The command type of this context's conventional preset.
    pub open spec fn spec_command_type(self) -> CommandType {
        if self.is_cargo() {
            CommandType::Cargo
        } else {
            CommandType::Shell
        }
    }

    /// The sub-command of this context's conventional preset: the context's
    /// own name for a cargo context, none for a script.
    pub open spec fn spec_sub_command(self) -> Seq<char> {
        if self.is_cargo() {
            self.spec_name()
        } else {
            Seq::<char>::empty()
        }
    }

    /// The name of the context.
    pub fn name(&self) -> (name: &'static str)
        ensures
            name@ == self.spec_name(),
    {
        match self {
            CommandContext::Run => "run",
            CommandContext::Test => "test",
            CommandContext::Build => "build",
            CommandContext::Bench => "bench",
            CommandContext::Script => "script",
        }
    }

    /// Reads a context from a name, ignoring the case of ASCII letters.
    pub fn from_name(name: &str) -> (context: Self)
        ensures
            context == Self::spec_from_name(name@),
    {
        if is_word(name, "run") {
            CommandContext::Run
        } else if is_word(name, "test") {
            CommandContext::Test
        } else if is_word(name, "build") {
            CommandContext::Build
        } else if is_word(name, "bench") {
            CommandContext::Bench
        } else {
            CommandContext::Script
        }
    }

    /// The command type of this context's conventional preset.
    pub fn command_type(&self) -> (kind: CommandType)
        ensures
            kind == self.spec_command_type(),
    {
        match self {
            CommandContext::Script => CommandType::Shell,
            _ => CommandType::Cargo,
        }
    }

    /// The sub-command of this context's conventional preset.
    pub fn sub_command(&self) -> (sub_command: String)
        ensures
            sub_command@ == self.spec_sub_command(),
    {
        match self {
            CommandContext::Script => String::new(),
            _ => String::from_str(self.name()),
        }
    }

    /// The program of this context's conventional preset.
    pub fn command(&self) -> (command: String)
        ensures
            command@ == self.spec_command_type().spec_program(),
    {
        self.command_type().program()
    }
}

/// The lowercase form of an ASCII letter; any other character is itself.
fn to_lower_ascii(c: char) -> (lower: char)
    ensures
        lower == lower_ascii(c),
{
    if c >= 'A' && c <= 'Z' {
        ((c as u8) + 32) as char
    } else {
        c
    }
}

/// Whether `text` is `word` when the case of ASCII letters is ignored.
fn is_word(text: &str, word: &str) -> (same: bool)
    ensures
        same == same_ignoring_ascii_case(text@, word@),
{
    let mut left: Vec<char> = Vec::new();
    for c in chars: text.chars()
        invariant
            chars.seq() == text@,
            left@ == text@.take(chars.index() as int).map_values(|c: char| lower_ascii(c)),
    {
        let ghost before = left@;
        left.push(to_lower_ascii(c));
        assert(left@ =~= text@.take(chars.index() + 1).map_values(|c: char| lower_ascii(c)));
    }
    assert(text@.take(text@.len() as int) =~= text@);
    let mut right: Vec<char> = Vec::new();
    for c in chars: word.chars()
        invariant
            chars.seq() == word@,
            right@ == word@.take(chars.index() as int).map_values(|c: char| lower_ascii(c)),
    {
        right.push(to_lower_ascii(c));
        assert(right@ =~= word@.take(chars.index() + 1).map_values(|c: char| lower_ascii(c)));
    }
    assert(word@.take(word@.len() as int) =~= word@);
    if left.len() != right.len() {
        return false;
    }
    let mut i: usize = 0;
    while i < left.len()
        invariant
            0 <= i <= left@.len(),
            left@.len() == right@.len(),
            left@ == text@.map_values(|c: char| lower_ascii(c)),
            right@ == word@.map_values(|c: char| lower_ascii(c)),
            forall|j: int| 0 <= j < i ==> left@[j] == right@[j],
        decreases left@.len() - i,
    {
        if left[i] != right[i] {
            return false;
        }
        i += 1;
    }
    assert(left@ =~= right@);
    true
}

/// One of the four contexts whose presets are cargo invocations.
#[derive(Clone, Copy, Debug, PartialEq, Eq, Hash, Structural)]
pub enum CargoContext {
    Run,
    Test,
    Build,
    Bench,
}

impl Default for CargoContext {
    fn default() -> (context: Self)
        ensures
            context == CargoContext::Run,
    {
        CargoContext::Run
    }
}

impl CargoContext {
    /// The same context among all the invocation contexts.
    pub open spec fn spec_context(self) -> CommandContext {
        match self {
            CargoContext::Run => CommandContext::Run,
            CargoContext::Test => CommandContext::Test,
            CargoContext::Build => CommandContext::Build,
            CargoContext::Bench => CommandContext::Bench,
        }
    }

    /// The same context among all the invocation contexts.
    pub fn context(&self) -> (context: CommandContext)
        ensures
            context == self.spec_context(),
            context.is_cargo(),
    {
        match self {
            CargoContext::Run => CommandContext::Run,
            CargoContext::Test => CommandContext::Test,
            CargoContext::Build => CommandContext::Build,
            CargoContext::Bench => CommandContext::Bench,
        }
    }

    /// The cargo sub-command that the context stands for: its own name.
    pub fn sub_command(&self) -> (sub_command: String)
        ensures
            sub_command@ == self.spec_context().spec_name(),
    {
        String::from_str(self.context().name())
    }

    /// The program that runs the context's presets: `cargo`.
    pub fn command(&self) -> (command: String)
        ensures
            command@ == "cargo"@,
    {
        String::from_str("cargo")
    }
}

/// Another name for [`CargoContext`].
pub type ContextType = CargoContext;

} // verus!

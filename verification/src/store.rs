//! What has to happen to the configuration file: the decisions of a load, a
//! reset and a download, and the names of the backups.
//!
//! Nothing here touches a file. The caller reads, parses, fetches and writes,
//! hands in what came of it, and carries out the [`FileUpdate`] it gets back.

use vstd::prelude::*;
use vstd::string::StringExecFns;
use crate::helpers::{decimal, decimal_string, lemma_decimal_injective};
use crate::models::cargo_context::CommandContext;
use crate::models::command_config::CommandConfigView;
use crate::models::config::Config;
use crate::models::context::{default_tables, merge_tables, stale_defaults};

verus! {

/// What the caller has to do to the configuration file.
#[derive(Debug)]
pub enum FileUpdate {
    /// Leave the file as it is.
    Keep,
    /// Copy the file to a fresh backup first, and only then overwrite it
    /// with this configuration.
    BackupThenOverwrite(Config),
    /// Write this configuration to the path given, which is no file that a
    /// backup is kept of.
    WriteTo(String, Config),
}

/// A [`FileUpdate`] as plain values.
pub ghost enum FileUpdateView {
    Keep,
    BackupThenOverwrite(Map<CommandContext, CommandConfigView>),
    WriteTo(Seq<char>, Map<CommandContext, CommandConfigView>),
}

impl View for FileUpdate {
    type V = FileUpdateView;

    open spec fn view(&self) -> FileUpdateView {
        match self {
            FileUpdate::Keep => FileUpdateView::Keep,
            FileUpdate::BackupThenOverwrite(config) => FileUpdateView::BackupThenOverwrite(
                config@,
            ),
            FileUpdate::WriteTo(path, config) => FileUpdateView::WriteTo(path@, config@),
        }
    }
}

/// The outcome of a load: the configuration in memory, and what has to
/// happen to the file.
#[derive(Debug)]
pub struct Loaded {
    pub config: Config,
    pub update: FileUpdate,
}

/// Decides a load. `parsed` is the configuration that the file held, or
/// nothing where the file could not be read or its text could not be parsed.
///
/// A file that held a configuration is kept, and that configuration is the
/// one loaded. Any other file is repaired: it is backed up and then
/// overwritten with the built-in configuration, which is the one loaded.
pub fn plan_load(parsed: Option<Config>) -> (loaded: Loaded)
    ensures
        match parsed {
            Some(config) => loaded.config@ == config@ && loaded.update@ == FileUpdateView::Keep,
            None => loaded.config@ == default_tables() && loaded.update@
                == FileUpdateView::BackupThenOverwrite(default_tables()),
        },
{
    match parsed {
        Some(config) => Loaded { config, update: FileUpdate::Keep },
        None => Loaded {
            config: Config::default(),
            update: FileUpdate::BackupThenOverwrite(Config::default()),
        },
    }
}

/// Decides a reset: whatever the file holds, it is backed up and then
/// overwritten with the built-in configuration.
pub fn plan_reset() -> (update: FileUpdate)
    ensures
        update@ == FileUpdateView::BackupThenOverwrite(default_tables()),
{
    FileUpdate::BackupThenOverwrite(Config::default())
}

/// The outcome of a download: what has to happen to the file, and the
/// contexts whose downloaded default was not taken over, for the caller to
/// warn about.
#[derive(Debug)]
pub struct Downloaded {
    pub update: FileUpdate,
    pub stale: Vec<CommandContext>,
}

/// Decides what to do with a downloaded `fragment`.
///
/// With a path to save to, the fragment goes there as it is. Without one,
/// the fragment is merged into the built-in configuration, in which it wins,
/// and the result replaces the configuration file after a backup.
pub fn plan_download(fragment: Config, save_path: Option<String>) -> (downloaded: Downloaded)
    ensures
        downloaded.stale@.no_duplicates(),
        match save_path {
            Some(path) => downloaded.update@ == FileUpdateView::WriteTo(path@, fragment@)
                && downloaded.stale@.len() == 0,
            None => downloaded.update@ == FileUpdateView::BackupThenOverwrite(
                merge_tables(default_tables(), fragment@),
            ) && downloaded.stale@.to_set() == stale_defaults(default_tables(), fragment@),
        },
{
    match save_path {
        Some(path) => Downloaded { update: FileUpdate::WriteTo(path, fragment), stale: Vec::new() },
        None => {
            let mut merged = Config::default();
            let stale = merged.merge(fragment);
            Downloaded { update: FileUpdate::BackupThenOverwrite(merged), stale }
        },
    }
}

/// The name of the backup number `index` of the file with the stem `stem`:
/// the stem, a dot, the number, and `.bak`.
pub open spec fn backup_name(stem: Seq<char>, index: nat) -> Seq<char> {
    stem + "."@ + decimal(index) + ".bak"@
}

/// Backups of one file with different numbers have different names, so a
/// number whose name no file has yet never leads to an existing backup.
pub proof fn lemma_backup_names_differ(stem: Seq<char>, first: nat, second: nat)
    requires
        first != second,
    ensures
        backup_name(stem, first) != backup_name(stem, second),
{
    if backup_name(stem, first) == backup_name(stem, second) {
        let head = stem + "."@;
        let a = decimal(first);
        let b = decimal(second);
        let tail = ".bak"@;
        let left = head + a + tail;
        let right = head + b + tail;
        assert(left == right);
        assert(left.len() == head.len() + a.len() + tail.len());
        assert(right.len() == head.len() + b.len() + tail.len());
        assert(a.len() == b.len());
        assert forall|i: int| 0 <= i < a.len() implies a[i] == b[i] by {
            assert(left[head.len() + i] == a[i]);
            assert(right[head.len() + i] == b[i]);
        }
        assert(a =~= b);
        lemma_decimal_injective(first, second);
    }
}

/// The name of the backup number `index` of the file with the stem `stem`.
/// The caller tries the numbers from 0 upwards and takes the first name that
/// no file has yet.
pub fn backup_file_name(stem: &str, index: u64) -> (name: String)
    ensures
        name@ == backup_name(stem@, index as nat),
{
    let mut name = String::from_str(stem);
    name.append(".");
    let number = decimal_string(index);
    name.append(number.as_str());
    name.append(".bak");
    name
}

} // verus!

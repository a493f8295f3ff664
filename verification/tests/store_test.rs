use cargo_runner::errors::ConfigError;
use cargo_runner::models::env_value::{parse_bool, typed_env_value, typed_env_value_of};
use cargo_runner::models::{CommandContext, CommandDetails, CommandType, Config, EnvValue};
use cargo_runner::store::{backup_file_name, plan_download, plan_load, plan_reset, FileUpdate};

fn dx_only() -> Config {
    let mut details = CommandDetails::default();
    details.command_type = CommandType::Shell;
    details.command = "dx".to_string();
    let mut config = Config::empty();
    {
        let run = config.context.get_or_default_config(CommandContext::Run);
        run.update_config("dx", details);
        run.default = "dx".to_string();
    }
    config
}

#[test]
fn load_of_a_file_with_only_the_run_context() {
    let loaded = plan_load(Some(dx_only()));
    assert!(matches!(loaded.update, FileUpdate::Keep));
    assert_eq!(loaded.config.get_default(CommandContext::Run), Some("dx"));
    assert_eq!(
        loaded.config.find(CommandContext::Run, "dx").unwrap().command_type,
        CommandType::Shell
    );
    assert!(loaded.config.context.test.is_none());
    assert!(loaded.config.context.build.is_none());
    assert!(loaded.config.context.bench.is_none());
}

#[test]
fn load_of_an_unparsable_file_repairs_it() {
    let loaded = plan_load(None);
    assert_eq!(loaded.config.get_default(CommandContext::Run), Some("default"));
    assert_eq!(loaded.config.context.get_configs(CommandContext::Bench), vec!["default"]);
    match loaded.update {
        FileUpdate::BackupThenOverwrite(config) => {
            assert_eq!(config.get_default(CommandContext::Test), Some("default"));
            assert_eq!(config.find(CommandContext::Build, "default").unwrap().sub_command, "build");
            assert!(config.context.script.is_none());
        }
        _ => panic!("the file must be backed up and overwritten"),
    }
    assert_ne!(backup_file_name("config", 0), "config.toml");
}

#[test]
fn reset_backs_up_and_overwrites_with_the_defaults() {
    match plan_reset() {
        FileUpdate::BackupThenOverwrite(config) => {
            assert_eq!(config.get_default(CommandContext::Run), Some("default"));
            assert_eq!(config.context.get_configs(CommandContext::Run), vec!["default"]);
        }
        _ => panic!("a reset overwrites after a backup"),
    }
}

#[test]
fn download_with_a_path_writes_the_fragment_there() {
    let downloaded = plan_download(dx_only(), Some("example-downloaded.toml".to_string()));
    assert!(downloaded.stale.is_empty());
    match downloaded.update {
        FileUpdate::WriteTo(path, config) => {
            assert_eq!(path, "example-downloaded.toml");
            assert_eq!(config.context.get_configs(CommandContext::Run), vec!["dx"]);
            assert!(config.context.test.is_none());
        }
        _ => panic!("the fragment goes to the path given"),
    }
}

#[test]
fn download_without_a_path_merges_into_the_defaults() {
    let downloaded = plan_download(dx_only(), None);
    assert!(downloaded.stale.is_empty());
    match downloaded.update {
        FileUpdate::BackupThenOverwrite(config) => {
            assert_eq!(config.get_default(CommandContext::Run), Some("dx"));
            assert_eq!(config.context.get_configs(CommandContext::Run), vec!["default", "dx"]);
            assert_eq!(config.get_default(CommandContext::Test), Some("default"));
        }
        _ => panic!("the merged configuration replaces the file after a backup"),
    }
}

#[test]
fn download_reports_a_default_that_was_not_taken_over() {
    let mut fragment = dx_only();
    fragment.context.get_or_default_config(CommandContext::Run).default = "ghost".to_string();
    fragment.context.get_or_default_config(CommandContext::Bench).default = "default".to_string();
    let downloaded = plan_download(fragment, None);
    assert_eq!(downloaded.stale, vec![CommandContext::Run]);
    match downloaded.update {
        FileUpdate::BackupThenOverwrite(config) => {
            assert_eq!(config.get_default(CommandContext::Run), Some("default"));
            assert_eq!(config.get_default(CommandContext::Bench), Some("default"));
        }
        _ => panic!("the merged configuration replaces the file after a backup"),
    }
}

#[test]
fn backup_names_count_up() {
    assert_eq!(backup_file_name("config", 0), "config.0.bak");
    assert_eq!(backup_file_name("config", 1), "config.1.bak");
    assert_eq!(backup_file_name("config", 12), "config.12.bak");
    assert_eq!(backup_file_name("", 7), ".7.bak");
    assert_ne!(backup_file_name("config", 1), backup_file_name("config", 10));
}

#[test]
fn env_values_are_typed_for_writing() {
    assert_eq!(typed_env_value("true"), EnvValue::Bool(true));
    assert_eq!(typed_env_value("false"), EnvValue::Bool(false));
    assert_eq!(typed_env_value("42"), EnvValue::Integer(42));
    assert_eq!(typed_env_value("-7"), EnvValue::Integer(-7));
    assert_eq!(typed_env_value("TRUE"), EnvValue::Text("TRUE".to_string()));
    assert_eq!(typed_env_value("Cargo Runner"), EnvValue::Text("Cargo Runner".to_string()));
    assert_eq!(typed_env_value(""), EnvValue::Text("".to_string()));
    assert_eq!(
        typed_env_value("9223372036854775808"),
        EnvValue::Text("9223372036854775808".to_string())
    );
}

#[test]
fn env_value_typing_given_the_integer() {
    assert_eq!(typed_env_value_of("true", Some(1)), EnvValue::Bool(true));
    assert_eq!(typed_env_value_of("12", Some(12)), EnvValue::Integer(12));
    assert_eq!(typed_env_value_of("12", None), EnvValue::Text("12".to_string()));
    assert_eq!(parse_bool("true"), Some(true));
    assert_eq!(parse_bool("false"), Some(false));
    assert_eq!(parse_bool("True"), None);
    assert_eq!(parse_bool(""), None);
}

#[test]
fn error_messages() {
    assert_eq!(
        ConfigError::MissingConfigFields("command".to_string()).message(),
        "Missing Config Fields: command"
    );
    assert_eq!(
        ConfigError::ConfigKeyNotFound("dx".to_string()).message(),
        "The config key 'dx' does not exist."
    );
    assert_eq!(ConfigError::InvalidSubCommand("nope".to_string()).message(), "nope");
    assert_eq!(ConfigError::InvalidEnvFormat.message(), "ENV define is not ALL_CAPS");
    assert_eq!(ConfigError::InvalidPreCommand("loop".to_string()).message(), "loop");
    assert_eq!(ConfigError::CommandType("type".to_string()).message(), "type");
}

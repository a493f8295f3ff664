use cargo_runner::builders::CargoConfigBuilder;
use cargo_runner::collections::{StringMap, StringSet};
use cargo_runner::errors::ConfigError;
use cargo_runner::models::{
    CargoContext, CommandConfig, CommandContext, CommandDetails, CommandType, Config, Context,
    ContextType,
};

fn dx_details() -> CommandDetails {
    let mut details = CommandDetails::default();
    details.command_type = CommandType::Shell;
    details.command = "dx".to_string();
    details.sub_command = "serve".to_string();
    details.allowed_subcommands =
        StringSet::from_vec(vec!["build".to_string(), "serve".to_string()]);
    details.env = StringMap::new();
    details
}

fn dx_fragment() -> Config {
    let mut fragment = Config::empty();
    let run = fragment.context.get_or_default_config(CommandContext::Run);
    run.update_config("dx", dx_details());
    run.default = "dx".to_string();
    fragment
}

#[test]
fn config_test_default_commands() {
    let config = Config::default();

    assert_eq!(config.get_default(CommandContext::from_name("run")), Some("default"));

    let mut config = Config::default();
    config.context.run.as_mut().unwrap().update_config("dx", dx_details());

    assert!(config.set_default(CommandContext::from_name("run"), "dx").is_ok());
    assert_eq!(config.get_default(CommandContext::from_name("run")), Some("dx"));
}

#[test]
fn config_test_merge_configs() {
    let mut base_config = Config::default();

    base_config.merge(dx_fragment());

    let run = base_config.context.run.as_ref().expect("Run config should exist");

    assert_eq!(run.configs.len(), 2);
    assert_eq!(run.default, "dx");

    let dx_config = run.get("dx").expect("dx config should exist");
    assert_eq!(dx_config.command, "dx");
    assert_eq!(dx_config.sub_command, "serve");
    assert!(matches!(dx_config.command_type, CommandType::Shell));

    let default_config = run.get("default").expect("default config should exist");
    assert_eq!(default_config.command, "cargo");
    assert_eq!(default_config.sub_command, "run");
    assert_eq!(default_config.command_type, CommandType::Cargo);
}

#[test]
fn test_default_config() {
    let config = Config::default();

    let run_config = config.context.run.expect("run config should have default");
    assert_eq!(run_config.default, "default");
    let run_details = run_config.get("default").expect("default run config should exist");
    assert_eq!(run_details.sub_command, "run");
    assert_eq!(run_details.command_type, CommandType::Cargo);

    let test_config = config.context.test.expect("test config should have default");
    assert_eq!(test_config.default, "default");
    let test_details = test_config.get("default").expect("default test config should exist");
    assert_eq!(test_details.sub_command, "test");
    assert_eq!(test_details.command_type, CommandType::Cargo);

    let build_config = config.context.build.expect("build config should have default");
    assert_eq!(build_config.default, "default");
    let build_details = build_config.get("default").expect("default build config should exist");
    assert_eq!(build_details.sub_command, "build");
    assert_eq!(build_details.command_type, CommandType::Cargo);

    let bench_config = config.context.bench.expect("bench config should have default");
    assert_eq!(bench_config.default, "default");
    let bench_details = bench_config.get("default").expect("default bench config should exist");
    assert_eq!(bench_details.sub_command, "bench");
    assert_eq!(bench_details.command_type, CommandType::Cargo);

    assert!(config.context.script.is_none());
}

#[test]
fn test_update_and_add_config_key() {
    let mut config = Config::default();

    let config_key = "leptos";
    let context = ContextType::Run;
    let command_type = CommandType::SubCommand;
    let sub_command = "leptos";
    let sub_action = "watch";

    let new_details = CargoConfigBuilder::new(command_type, context)
        .command_type(CommandType::Cargo)
        .command(command_type.program().as_str())
        .sub_command(sub_command)
        .sub_action(sub_action)
        .build()
        .unwrap();

    {
        let run_config = config.context.get_or_default_config(context.context());
        run_config.update_config(config_key, new_details);
    }

    let reloaded_config = config.clone();

    assert!(reloaded_config.context.run.is_some(), "Run configuration should exist");
    let run = reloaded_config.context.run.unwrap();
    assert!(
        run.configs.contains_key(config_key),
        "Config key 'leptos' should be present in the run configs"
    );
    let leptos = run.get(config_key).unwrap();
    assert_eq!(leptos.command_type, CommandType::Cargo);
    assert_eq!(leptos.command, "cargo");
    assert_eq!(leptos.sub_command, "leptos");
    assert_eq!(leptos.sub_action, "watch");
}

#[test]
fn test_remove_config_key_and_default_handling() {
    let mut config = Config::default();

    let config_key = "leptos";
    let context = ContextType::Run;
    let command_type = CommandType::SubCommand;
    let sub_command = "leptos";
    let sub_action = "watch";

    let details = CargoConfigBuilder::new(command_type, context)
        .command_type(command_type)
        .command(command_type.program().as_str())
        .sub_command(sub_command)
        .sub_action(sub_action)
        .build()
        .unwrap();

    {
        let run_config = config.context.get_or_default_config(context.context());
        run_config.update_config(config_key, details);
    }

    assert!(
        config.context.set_default_config(context.context(), config_key).is_ok(),
        "Setting default config failed"
    );
    assert_eq!(config.get_default(CommandContext::Run), Some("leptos"));

    {
        let run_config = config.context.get_or_default_config(context.context());
        run_config.remove_config(config_key);
    }

    let reloaded_config = config.clone();

    assert!(reloaded_config.context.run.is_some(), "Run configuration should exist");

    let reloaded_run_config = reloaded_config.context.run.unwrap();
    assert!(
        !reloaded_run_config.configs.contains_key(config_key),
        "Config key 'leptos' should have been removed"
    );
    assert_ne!(
        reloaded_run_config.default, config_key,
        "Default config key should no longer be 'leptos'"
    );
    assert_eq!(reloaded_run_config.default, "default");
}

#[test]
fn with_context_seeds_one_default_preset() {
    let expected = [
        (CommandContext::Run, "run"),
        (CommandContext::Test, "test"),
        (CommandContext::Build, "build"),
        (CommandContext::Bench, "bench"),
    ];
    for (context, name) in expected {
        let table = CommandConfig::with_context(context);
        assert_eq!(table.default, "default");
        assert_eq!(table.keys(), vec!["default"]);
        let details = table.get("default").unwrap();
        assert_eq!(details.command_type, CommandType::Cargo);
        assert_eq!(details.command, "cargo");
        assert_eq!(details.sub_command, name);
        assert_eq!(details.sub_action, "");
        assert_eq!(details.params, "");
        assert_eq!(details.working_directory, "${workspaceFolder}");
        assert!(details.env.is_empty());
        assert!(details.pre_command.is_empty());
        assert!(!details.allow_multiple_instances);
    }
    let script = CommandConfig::with_context(CommandContext::Script);
    let details = script.get("default").unwrap();
    assert_eq!(details.command_type, CommandType::Shell);
    assert_eq!(details.command, "");
    assert_eq!(details.sub_command, "");
}

#[test]
fn remove_config_resets_a_removed_default_even_when_it_dangles() {
    let mut table = CommandConfig::with_context(CommandContext::Run);
    table.update_config("dx", dx_details());
    table.set_default("dx").unwrap();
    table.remove_config("default");
    assert_eq!(table.default, "dx");
    table.remove_config("dx");
    assert_eq!(table.default, "default");
    assert!(table.configs.is_empty());
    assert!(table.default_details().is_none());
}

#[test]
fn update_config_overwrites() {
    let mut table = CommandConfig::with_context(CommandContext::Run);
    table.update_config("default", dx_details());
    assert_eq!(table.configs.len(), 1);
    assert_eq!(table.get("default").unwrap().command, "dx");
    assert_eq!(table.default_details().unwrap().command, "dx");
}

#[test]
fn get_or_default_config_installs_an_empty_table() {
    let mut context = Context::default();
    assert!(context.script.is_none());
    {
        let script = context.get_or_default_config(CommandContext::Script);
        assert_eq!(script.default, "default");
        assert!(script.configs.is_empty());
    }
    assert!(context.script.is_some());
    assert!(context.get_configs(CommandContext::Script).is_empty());

    let run = context.get_or_default_config(CommandContext::Run);
    assert_eq!(run.keys(), vec!["default"]);
}

#[test]
fn get_configs_lists_the_keys() {
    let mut context = Context::default();
    context.get_or_default_config(CommandContext::Run).update_config("dx", dx_details());
    assert_eq!(context.get_configs(CommandContext::Run), vec!["default", "dx"]);
    assert_eq!(context.get_configs(CommandContext::Test), vec!["default"]);
    assert!(Context::empty().get_configs(CommandContext::Run).is_empty());
}

#[test]
fn set_default_config_fails_on_absent_key_and_changes_nothing() {
    let mut context = Context::default();
    let outcome = context.set_default_config(CommandContext::Run, "dx");
    match outcome {
        Err(ConfigError::ConfigKeyNotFound(key)) => assert_eq!(key, "dx"),
        _ => panic!("an absent key must be refused"),
    }
    assert_eq!(context.run.as_ref().unwrap().default, "default");

    let outcome = context.set_default_config(CommandContext::Script, "default");
    assert!(matches!(outcome, Err(ConfigError::ConfigKeyNotFound(_))));
    assert!(context.script.is_none());

    context.get_or_default_config(CommandContext::Run).update_config("dx", dx_details());
    assert!(context.set_default_config(CommandContext::Run, "dx").is_ok());
    assert_eq!(context.run.as_ref().unwrap().default, "dx");
}

#[test]
fn get_command_config_falls_back_on_the_conventional_table() {
    let context = Context::empty();
    let details = context.get_command_config(CommandContext::Test, "default").unwrap();
    assert_eq!(details.sub_command, "test");
    assert!(context.get_command_config(CommandContext::Test, "dx").is_none());

    let mut context = Context::default();
    context.get_or_default_config(CommandContext::Run).update_config("dx", dx_details());
    assert_eq!(context.get_command_config(CommandContext::Run, "dx").unwrap().command, "dx");
    context.get_or_default_config(CommandContext::Run).remove_config("default");
    assert!(context.get_command_config(CommandContext::Run, "default").is_none());
}

#[test]
fn pluck_a_name_that_only_run_has() {
    let mut config = Config::default();
    config.merge(dx_fragment());

    let plucked = config.pluck("dx");

    assert!(plucked.context.test.is_none());
    assert!(plucked.context.build.is_none());
    assert!(plucked.context.bench.is_none());
    assert!(plucked.context.script.is_none());
    let run = plucked.context.run.as_ref().unwrap();
    assert_eq!(run.default, "dx");
    assert_eq!(run.keys(), vec!["dx"]);
    assert_eq!(plucked.get_default(CommandContext::Run), Some("dx"));
}

#[test]
fn find_and_defaults_on_the_root() {
    let mut config = Config::default();
    config.merge(dx_fragment());
    assert_eq!(config.find(CommandContext::Run, "dx").unwrap().sub_command, "serve");
    assert!(config.find(CommandContext::Test, "dx").is_none());
    assert_eq!(config.get_default(CommandContext::Script), None);
    let outcome = config.set_default(CommandContext::Test, "dx");
    assert!(matches!(outcome, Err(ConfigError::ConfigKeyNotFound(ref key)) if key == "dx"));
    assert_eq!(config.get_default(CommandContext::Test), Some("default"));
}

#[test]
fn cargo_context_names() {
    assert_eq!(CargoContext::Run.sub_command(), "run");
    assert_eq!(CargoContext::Test.sub_command(), "test");
    assert_eq!(CargoContext::Build.sub_command(), "build");
    assert_eq!(CargoContext::Bench.sub_command(), "bench");
    assert_eq!(CargoContext::Bench.command(), "cargo");
    assert_eq!(CargoContext::default(), CargoContext::Run);
    assert_eq!(CargoContext::Build.context(), CommandContext::Build);
}

#[test]
fn command_context_names() {
    assert_eq!(CommandContext::from_name("run"), CommandContext::Run);
    assert_eq!(CommandContext::from_name("TEST"), CommandContext::Test);
    assert_eq!(CommandContext::from_name("Build"), CommandContext::Build);
    assert_eq!(CommandContext::from_name("bench"), CommandContext::Bench);
    assert_eq!(CommandContext::from_name("script"), CommandContext::Script);
    assert_eq!(CommandContext::from_name("deploy"), CommandContext::Script);
    assert_eq!(CommandContext::from_name(""), CommandContext::Script);
    assert_eq!(CommandContext::from_name("runs"), CommandContext::Script);
    assert_eq!(CommandContext::Bench.name(), "bench");
    assert_eq!(CommandContext::Script.name(), "script");
    assert_eq!(CommandContext::default(), CommandContext::Script);
    assert_eq!(CommandContext::Script.command_type(), CommandType::Shell);
    assert_eq!(CommandContext::Run.command(), "cargo");
    assert_eq!(CommandContext::Script.command(), "");
}

#[test]
fn command_type_names() {
    assert_eq!(CommandType::default(), CommandType::Cargo);
    assert_eq!(CommandType::Cargo.name(), "cargo");
    assert_eq!(CommandType::SubCommand.name(), "subcommand");
    assert_eq!(CommandType::Shell.name(), "shell");
    assert_eq!(CommandType::from_name("cargo"), CommandType::Cargo);
    assert_eq!(CommandType::from_name("subcommand"), CommandType::SubCommand);
    assert_eq!(CommandType::from_name("shell"), CommandType::Shell);
    assert_eq!(CommandType::from_name("sub-command"), CommandType::Cargo);
    assert_eq!(CommandType::Cargo.program(), "cargo");
    assert_eq!(CommandType::SubCommand.program(), "cargo");
    assert_eq!(CommandType::Shell.program(), "");
}

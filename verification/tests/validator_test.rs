use cargo_runner::builders::{CargoConfigBuilder, CommandDetailsBuilder, ConfigBuilder};
use cargo_runner::collections::{StringMap, StringSet};
use cargo_runner::errors::ConfigError;
use cargo_runner::models::{
    CargoContext, CommandContext, CommandDetails, CommandType, Config,
};
use cargo_runner::validation::{Chain, NoValidator, ValidateCommandDetails, Validator};
use cargo_runner::validator::{
    check_command, check_command_type, check_env, check_pre_command, check_sub_command,
    command_type_validator, command_validator, env_validator, pre_command_validator,
    sub_command_validator, Validate,
};

fn set(items: &[&str]) -> StringSet {
    StringSet::from_vec(items.iter().map(|item| item.to_string()).collect())
}

fn env(entries: &[(&str, &str)]) -> StringMap<String> {
    let mut map = StringMap::new();
    for (key, value) in entries {
        map.insert(key.to_string(), value.to_string());
    }
    map
}

#[test]
fn env_rule_follows_the_naming_rule() {
    assert!(check_env(&env(&[("RUSTFLAGS", "x")])).is_ok());
    assert!(check_env(&env(&[])).is_ok());
    assert!(matches!(check_env(&env(&[("rustflags", "x")])), Err(ConfigError::InvalidEnvFormat)));
    assert!(matches!(check_env(&env(&[("MY-VAR", "x")])), Err(ConfigError::InvalidEnvFormat)));
    assert!(matches!(check_env(&env(&[("", "x")])), Err(ConfigError::InvalidEnvFormat)));
    assert!(matches!(
        check_env(&env(&[("GOOD", "x"), ("bad", "y")])),
        Err(ConfigError::InvalidEnvFormat)
    ));
}

#[test]
fn sub_command_rule_names_the_offender() {
    assert!(check_sub_command("build", &set(&["build", "serve"])).is_ok());
    match check_sub_command("deploy", &set(&["build", "serve"])) {
        Err(ConfigError::InvalidSubCommand(message)) => {
            assert_eq!(message, "You cannot use deploy as a sub_command")
        }
        _ => panic!("a sub-command outside the list must be refused"),
    }
    assert!(matches!(check_sub_command("", &set(&[])), Err(ConfigError::InvalidSubCommand(_))));
}

#[test]
fn pre_command_rule_refuses_self_reference_first() {
    let known = vec!["default".to_string(), "self".to_string()];
    match check_pre_command("self", &set(&["ghost", "self"]), &known) {
        Err(ConfigError::InvalidPreCommand(message)) => {
            assert_eq!(message, "You cannot use self as a pre_command")
        }
        _ => panic!("a self-reference must be refused"),
    }
}

#[test]
fn pre_command_rule_names_the_first_unknown_reference() {
    let known = vec!["default".to_string(), "dx".to_string()];
    match check_pre_command("leptos", &set(&["default", "ghost", "phantom"]), &known) {
        Err(ConfigError::InvalidPreCommand(message)) => assert_eq!(
            message,
            "Pre-command ghost must be any of the following: [default,dx]"
        ),
        _ => panic!("an unknown pre-command must be refused"),
    }
    assert!(check_pre_command("leptos", &set(&["default", "dx"]), &known).is_ok());
    assert!(check_pre_command("leptos", &set(&[]), &known).is_ok());
    assert!(check_pre_command("leptos", &set(&[]), &vec![]).is_ok());
}

#[test]
fn command_rules() {
    assert!(check_command("cargo").is_ok());
    match check_command("") {
        Err(ConfigError::MissingConfigFields(message)) => {
            assert_eq!(message, "Command cannot be empty")
        }
        _ => panic!("an empty command must be refused"),
    }
    assert!(check_command_type(CommandType::Cargo).is_ok());
    match check_command_type(CommandType::Shell) {
        Err(ConfigError::CommandType(message)) => assert_eq!(message, "Command Type Error"),
        _ => panic!("a shell type must be refused"),
    }
    assert!(matches!(
        check_command_type(CommandType::SubCommand),
        Err(ConfigError::CommandType(_))
    ));
}

#[test]
fn catalog_functions_name_their_rules() {
    assert_eq!(pre_command_validator(), Validate::PreCommand);
    assert_eq!(command_validator(), Validate::Command);
    assert_eq!(command_type_validator(), Validate::CommandType);
    assert_eq!(env_validator(), Validate::Env);
    assert_eq!(sub_command_validator(), Validate::SubCommand);
}

#[test]
fn builder_with_self_reference_fails_with_invalid_pre_command() {
    let mut config = Config::default();
    config
        .context
        .get_or_default_config(CommandContext::Run)
        .update_config("self", CommandDetails::default());

    let outcome = ConfigBuilder::new(CommandContext::Run)
        .config_key("self")
        .pre_command(set(&["self"]))
        .add_validator(pre_command_validator())
        .build(&config);

    match outcome {
        Err(ConfigError::InvalidPreCommand(message)) => {
            assert_eq!(message, "You cannot use self as a pre_command")
        }
        _ => panic!("a self-reference must be refused"),
    }
}

#[test]
fn config_builder_runs_the_rules_in_order_and_stops_at_the_first_failure() {
    let config = Config::default();

    let outcome = ConfigBuilder::new(CommandContext::Run)
        .config_key("leptos")
        .command("")
        .command_type(CommandType::Shell)
        .pre_command(set(&["ghost"]))
        .add_validator(pre_command_validator())
        .add_validator(command_validator())
        .add_validator(command_type_validator())
        .build(&config);
    assert!(matches!(outcome, Err(ConfigError::InvalidPreCommand(_))));

    let outcome = ConfigBuilder::new(CommandContext::Run)
        .config_key("leptos")
        .command("")
        .command_type(CommandType::Shell)
        .pre_command(set(&["default"]))
        .add_validator(pre_command_validator())
        .add_validator(command_validator())
        .add_validator(command_type_validator())
        .build(&config);
    assert!(matches!(outcome, Err(ConfigError::MissingConfigFields(_))));

    let outcome = ConfigBuilder::new(CommandContext::Run)
        .config_key("leptos")
        .command("leptos")
        .command_type(CommandType::Shell)
        .pre_command(set(&["default"]))
        .add_validator(pre_command_validator())
        .add_validator(command_validator())
        .add_validator(command_type_validator())
        .build(&config);
    assert!(matches!(outcome, Err(ConfigError::CommandType(_))));
}

#[test]
fn config_builder_hands_out_the_draft_when_all_rules_pass() {
    let config = Config::default();
    let details = ConfigBuilder::new(CommandContext::Run)
        .config_key("leptos")
        .command("leptos")
        .params("watch")
        .pre_command(set(&["default"]))
        .env(env(&[("APP_NAME", "Cargo Runner"), ("MY_CUSTOM_VAR_1", "TRUE")]))
        .allow_multiple_instances(true)
        .working_directory("/tmp")
        .add_validator(pre_command_validator())
        .add_validator(command_validator())
        .add_validator(command_type_validator())
        .add_validator(env_validator())
        .build(&config)
        .unwrap();

    assert_eq!(details.command_type, CommandType::Cargo);
    assert_eq!(details.command, "leptos");
    assert_eq!(details.params, "watch");
    assert_eq!(details.sub_command, "run");
    assert_eq!(details.working_directory, "/tmp");
    assert!(details.allow_multiple_instances);
    assert_eq!(details.pre_command.to_vec(), vec!["default"]);
    assert_eq!(details.env.get("APP_NAME"), Some(&"Cargo Runner".to_string()));
}

#[test]
fn config_builder_pre_command_rule_reads_the_builders_context() {
    let mut config = Config::default();
    config
        .context
        .get_or_default_config(CommandContext::Test)
        .update_config("unit", CommandDetails::default());

    let in_test = ConfigBuilder::new(CommandContext::Test)
        .config_key("all")
        .pre_command(set(&["unit"]))
        .add_validator(pre_command_validator())
        .build(&config);
    assert!(in_test.is_ok());

    let in_run = ConfigBuilder::new(CommandContext::Run)
        .config_key("all")
        .pre_command(set(&["unit"]))
        .add_validator(pre_command_validator())
        .build(&config);
    match in_run {
        Err(ConfigError::InvalidPreCommand(message)) => {
            assert_eq!(message, "Pre-command unit must be any of the following: [default]")
        }
        _ => panic!("a preset of another context is unknown"),
    }
}

#[test]
fn config_builder_new_seeds_from_the_context() {
    let run = ConfigBuilder::new(CommandContext::Run);
    assert_eq!(run.config_key, "");
    assert_eq!(run.context, CommandContext::Run);
    assert_eq!(run.draft.command_type, CommandType::Cargo);
    assert_eq!(run.draft.command, "cargo");
    assert_eq!(run.draft.sub_command, "run");
    assert_eq!(run.draft.working_directory, "${workspaceFolder}");
    assert!(run.validators.is_empty());

    let script = ConfigBuilder::new(CommandContext::Script);
    assert_eq!(script.draft.command_type, CommandType::Shell);
    assert_eq!(script.draft.command, "");
    assert_eq!(script.draft.working_directory, "${workspaceFolder}");
}

#[test]
fn config_builder_from_copies_the_existing_preset() {
    let mut config = Config::default();
    let builder = ConfigBuilder::from(CommandContext::Bench, &mut config, "default");
    assert_eq!(builder.config_key, "default");
    assert_eq!(builder.draft.sub_command, "bench");

    let builder = ConfigBuilder::from(CommandContext::Bench, &mut config, "other");
    assert_eq!(builder.draft.sub_command, "");
    assert_eq!(builder.draft.command, "");
    assert_eq!(builder.draft.command_type, CommandType::Cargo);

    assert!(config.context.script.is_none());
    let builder = ConfigBuilder::from(CommandContext::Script, &mut config, "lint");
    assert_eq!(builder.draft.command, "");
    let script = config.context.script.as_ref().expect("the empty table is installed");
    assert!(script.configs.is_empty());
    assert_eq!(script.default, "default");
}

#[test]
fn validate_runs_one_rule() {
    let config = Config::default();
    let builder = ConfigBuilder::new(CommandContext::Run)
        .config_key("dx")
        .env(env(&[("lower", "x")]));
    assert!(matches!(
        Validate::Env.validate(&config, &builder),
        Err(ConfigError::InvalidEnvFormat)
    ));
    assert!(Validate::Command.validate(&config, &builder).is_ok());
    assert!(Validate::CommandType.validate(&config, &builder).is_ok());
    assert!(Validate::PreCommand.validate(&config, &builder).is_ok());
    assert!(matches!(
        Validate::SubCommand.validate(&config, &builder),
        Err(ConfigError::InvalidSubCommand(_))
    ));
}

#[test]
fn cargo_builder_seeds_and_sets() {
    let details = CargoConfigBuilder::new(CommandType::SubCommand, CargoContext::Test)
        .build()
        .unwrap();
    assert_eq!(details.command_type, CommandType::SubCommand);
    assert_eq!(details.command, "cargo");
    assert_eq!(details.sub_command, "test");

    let details = CargoConfigBuilder::new(CommandType::Shell, CargoContext::Run)
        .command_type(CommandType::Cargo)
        .command("cargo")
        .sub_command("leptos")
        .sub_action("watch")
        .params("--hot-reload")
        .env(env(&[("WARNINGS", "TRUE")]))
        .allowed_subcommands(set(&["leptos"]))
        .toolchain(Some("nightly".to_string()))
        .features(set(&["ssr"]))
        .target(Some("wasm32-unknown-unknown".to_string()))
        .build()
        .unwrap();
    assert_eq!(details.command_type, CommandType::Cargo);
    assert_eq!(details.command, "cargo");
    assert_eq!(details.sub_command, "leptos");
    assert_eq!(details.sub_action, "watch");
    assert_eq!(details.params, "--hot-reload");
    assert_eq!(details.toolchain, Some("nightly".to_string()));
    assert_eq!(details.target, Some("wasm32-unknown-unknown".to_string()));
    assert_eq!(details.features.to_vec(), vec!["ssr"]);
    assert_eq!(details.allowed_subcommands.to_vec(), vec!["leptos"]);
    assert_eq!(details.env.get("WARNINGS"), Some(&"TRUE".to_string()));
}

#[test]
fn cargo_builder_stops_at_the_first_failing_validator() {
    let sub_command = Validator::new(|details: &CommandDetails| {
        check_sub_command(&details.sub_command, &details.allowed_subcommands)
    });
    let env_names = Validator::new(|details: &CommandDetails| check_env(&details.env));

    let outcome = CargoConfigBuilder::new(CommandType::Shell, CargoContext::Run)
        .sub_command("deploy")
        .allowed_subcommands(set(&["build", "serve"]))
        .env(env(&[("lower", "x")]))
        .add_validator(sub_command)
        .add_validator(env_names)
        .build();
    match outcome {
        Err(ConfigError::InvalidSubCommand(message)) => {
            assert_eq!(message, "You cannot use deploy as a sub_command")
        }
        _ => panic!("the first validator must decide"),
    }

    let sub_command = Validator::new(|details: &CommandDetails| {
        check_sub_command(&details.sub_command, &details.allowed_subcommands)
    });
    let env_names = Validator::new(|details: &CommandDetails| check_env(&details.env));
    let outcome = CargoConfigBuilder::new(CommandType::Shell, CargoContext::Run)
        .sub_command("build")
        .allowed_subcommands(set(&["build", "serve"]))
        .env(env(&[("lower", "x")]))
        .add_validator(sub_command)
        .add_validator(env_names)
        .build();
    assert!(matches!(outcome, Err(ConfigError::InvalidEnvFormat)));

    let sub_command = Validator::new(|details: &CommandDetails| {
        check_sub_command(&details.sub_command, &details.allowed_subcommands)
    });
    let env_names = Validator::new(|details: &CommandDetails| check_env(&details.env));
    let outcome = CargoConfigBuilder::new(CommandType::Shell, CargoContext::Run)
        .sub_command("build")
        .allowed_subcommands(set(&["build", "serve"]))
        .env(env(&[("WARNINGS", "TRUE")]))
        .add_validator(sub_command)
        .add_validator(env_names)
        .build();
    assert_eq!(outcome.unwrap().sub_command, "build");
}

#[test]
fn command_details_builder_seeds_and_sets() {
    let details = CommandDetailsBuilder::new(CommandType::Shell, "dx").build().unwrap();
    assert_eq!(details.command_type, CommandType::Shell);
    assert_eq!(details.command, "dx");
    assert_eq!(details.working_directory, "${workspaceFolder}");
    assert_eq!(details.params, "");
    assert!(!details.allow_multiple_instances);

    let details = CommandDetailsBuilder::new(CommandType::Shell, "dx")
        .command_type(CommandType::Cargo)
        .command("cargo")
        .params("watch")
        .env(env(&[("A", "1")]))
        .allow_multiple_instances(true)
        .working_directory("/srv")
        .pre_command(set(&["default"]))
        .build()
        .unwrap();
    assert_eq!(details.command_type, CommandType::Cargo);
    assert_eq!(details.command, "cargo");
    assert_eq!(details.params, "watch");
    assert_eq!(details.env.get("A"), Some(&"1".to_string()));
    assert!(details.allow_multiple_instances);
    assert_eq!(details.working_directory, "/srv");
    assert_eq!(details.pre_command.to_vec(), vec!["default"]);
}

#[test]
fn command_details_builder_runs_its_validators() {
    let not_empty = Validator::new(|details: &CommandDetails| check_command(&details.command));
    let outcome = CommandDetailsBuilder::new(CommandType::Shell, "")
        .add_validator(not_empty)
        .build();
    assert!(matches!(outcome, Err(ConfigError::MissingConfigFields(_))));
}

#[test]
fn chain_asks_the_second_only_after_the_first_passes() {
    let details = CommandDetails::default();
    let refuse =
        Validator::new(|_: &CommandDetails| -> Result<(), ConfigError> {
            Err(ConfigError::InvalidEnvFormat)
        });
    let never = Validator::new(|_: &CommandDetails| -> Result<(), ConfigError> {
        panic!("the second validator must not be asked")
    });
    let chain = Chain { first: refuse, second: never };
    assert!(matches!(chain.validate(&details), Err(ConfigError::InvalidEnvFormat)));

    let pass = Chain { first: NoValidator, second: NoValidator };
    assert!(pass.validate(&details).is_ok());
}

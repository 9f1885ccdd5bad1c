//! The configuration, the commands that change it, and its file.

use babycancer::config::{
    command_config, command_reset, default_config, get_config, reset_config, update_config,
    Config, ConfigArgs, ConfigSource, FileConfig, OutputConfig, PathConfig, ResetArgs, Session,
};
use babycancer::filter::ConfigError;

fn text(s: &str) -> Option<String> {
    Some(s.to_string())
}

fn sample() -> Config {
    Config {
        path_config: PathConfig {
            source_path: "tests/example/src".to_string(),
            dest_path: "tests/example/dest".to_string(),
        },
        file_config: FileConfig {
            file_path: text("some/path"),
            file_name: text(".*\\.rs$"),
            date: text("2023-01-01"),
            size: Some(1000),
            user: text("admin"),
        },
        output_config: OutputConfig { tar: true, gzip: true },
    }
}

fn no_config_args() -> ConfigArgs {
    ConfigArgs {
        config_path: None,
        source_path: None,
        dest_path: None,
        file_name: None,
        file_path: None,
        date: None,
        size: None,
        user: None,
        tar: None,
        gzip: None,
        output: false,
    }
}

fn no_reset_args() -> ResetArgs {
    ResetArgs {
        config_path: None,
        source_path: false,
        dest_path: false,
        file_name: false,
        file_path: false,
        date: false,
        size: false,
        user: false,
        tar: false,
        gzip: false,
        all: false,
    }
}

#[test]
fn initial_configuration_has_defaults_below_home() {
    let config = Config::initialize("/home/alice");
    assert_eq!(config.path_config.source_path, "/home/alice/.config/babycancer/source");
    assert_eq!(config.path_config.dest_path, "/home/alice/.config/babycancer/dest");
    assert_eq!(config.path_config, PathConfig::initialize("/home/alice"));
    assert_eq!(
        config.file_config,
        FileConfig { file_path: None, file_name: None, date: None, size: None, user: None }
    );
    assert_eq!(config.file_config, FileConfig::initialize());
    assert_eq!(config.output_config, OutputConfig { tar: false, gzip: false });
    assert_eq!(config.output_config, OutputConfig::initialize());
    // A home directory with a trailing separator gives the same paths.
    assert_eq!(Config::initialize("/home/alice/"), config);
}

#[test]
fn update_without_arguments_changes_nothing() {
    let mut config = sample();
    update_config(&mut config, &no_config_args());
    assert_eq!(config, sample());
}

#[test]
fn update_takes_over_exactly_what_is_named() {
    let mut config = sample();
    let args = ConfigArgs { user: text("newuser"), size: Some(0), ..no_config_args() };
    update_config(&mut config, &args);
    let mut wanted = sample();
    wanted.file_config.user = text("newuser");
    wanted.file_config.size = Some(0);
    assert_eq!(config, wanted);

    let everything = ConfigArgs {
        config_path: text("ignored.toml"),
        source_path: text("/new/src"),
        dest_path: text("/new/dest"),
        file_name: text("^test_.*$"),
        file_path: text("/absolute/path"),
        date: text("2024-12-31"),
        size: Some(9223372036854775807),
        user: text(""),
        tar: Some(false),
        gzip: Some(false),
        output: true,
    };
    update_config(&mut config, &everything);
    assert_eq!(
        config,
        Config {
            path_config: PathConfig {
                source_path: "/new/src".to_string(),
                dest_path: "/new/dest".to_string()
            },
            file_config: FileConfig {
                file_path: text("/absolute/path"),
                file_name: text("^test_.*$"),
                date: text("2024-12-31"),
                size: Some(9223372036854775807),
                user: text(""),
            },
            output_config: OutputConfig { tar: false, gzip: false },
        }
    );
}

#[test]
fn each_part_updates_on_its_own() {
    let args = ConfigArgs {
        source_path: text("/s"),
        file_name: text("x"),
        tar: Some(false),
        ..no_config_args()
    };
    let mut config = sample();
    config.path_config.update(&args);
    assert_eq!(config.path_config.source_path, "/s");
    assert_eq!(config.path_config.dest_path, "tests/example/dest");
    assert_eq!(config.file_config, sample().file_config);
    config.file_config.update(&args);
    assert_eq!(config.file_config.file_name, text("x"));
    assert_eq!(config.file_config.user, text("admin"));
    config.output_config.update(&args);
    assert_eq!(config.output_config, OutputConfig { tar: false, gzip: true });
}

#[test]
fn reset_without_flags_changes_nothing() {
    let mut config = sample();
    reset_config(&mut config, &no_reset_args(), "/home/alice");
    assert_eq!(config, sample());
}

#[test]
fn reset_puts_back_exactly_what_is_named() {
    let cases: Vec<(ResetArgs, Box<dyn Fn(&mut Config)>)> = vec![
        (
            ResetArgs { source_path: true, ..no_reset_args() },
            Box::new(|c| c.path_config.source_path = "/h/.config/babycancer/source".to_string()),
        ),
        (
            ResetArgs { dest_path: true, ..no_reset_args() },
            Box::new(|c| c.path_config.dest_path = "/h/.config/babycancer/dest".to_string()),
        ),
        (ResetArgs { file_name: true, ..no_reset_args() }, Box::new(|c| c.file_config.file_name = None)),
        (ResetArgs { file_path: true, ..no_reset_args() }, Box::new(|c| c.file_config.file_path = None)),
        (ResetArgs { date: true, ..no_reset_args() }, Box::new(|c| c.file_config.date = None)),
        (ResetArgs { size: true, ..no_reset_args() }, Box::new(|c| c.file_config.size = None)),
        (ResetArgs { user: true, ..no_reset_args() }, Box::new(|c| c.file_config.user = None)),
        (ResetArgs { tar: true, ..no_reset_args() }, Box::new(|c| c.output_config.tar = false)),
        (ResetArgs { gzip: true, ..no_reset_args() }, Box::new(|c| c.output_config.gzip = false)),
    ];
    for (args, change) in cases {
        let mut config = sample();
        reset_config(&mut config, &args, "/h");
        let mut wanted = sample();
        change(&mut wanted);
        assert_eq!(config, wanted, "{:?}", args);
    }
}

#[test]
fn reset_all_gives_the_initial_configuration() {
    let mut config = sample();
    reset_config(&mut config, &ResetArgs { all: true, ..no_reset_args() }, "/home/alice");
    assert_eq!(config, Config::initialize("/home/alice"));
    // Flags beside `all` add nothing.
    let mut config = sample();
    let args = ResetArgs { all: true, user: true, tar: true, ..no_reset_args() };
    reset_config(&mut config, &args, "/home/alice");
    assert_eq!(config, Config::initialize("/home/alice"));
}

#[test]
fn session_retains_the_last_named_file() {
    let mut session = Session::new();
    assert_eq!(session.get_current_config_path(), None);
    session.set_current_config_path("first.toml".to_string());
    assert_eq!(session.get_current_config_path(), text("first.toml"));
    session.set_current_config_path("second.toml".to_string());
    assert_eq!(session.get_current_config_path(), text("second.toml"));
}

#[test]
fn configuration_comes_from_the_named_then_the_retained_file() {
    let mut session = Session::new();
    assert_eq!(
        get_config(&text("named.toml"), &session),
        Ok(ConfigSource::File { path: "named.toml".to_string() })
    );
    session.set_current_config_path("retained.toml".to_string());
    assert_eq!(
        get_config(&None, &session),
        Ok(ConfigSource::File { path: "retained.toml".to_string() })
    );
    assert_eq!(
        get_config(&text("named.toml"), &session),
        Ok(ConfigSource::File { path: "named.toml".to_string() })
    );
    // Looking a configuration up retains nothing.
    assert_eq!(session.get_current_config_path(), text("retained.toml"));
}

#[test]
fn configuration_defaults_to_a_file_below_home() {
    let found = get_config(&None, &Session::new());
    match dirs::home_dir() {
        Some(home) => {
            let home = home.to_string_lossy().into_owned();
            assert_eq!(found, Ok(default_config(&home)));
            let expected = std::path::Path::new(&home).join(".config/rustbackup/config.toml");
            match found {
                Ok(ConfigSource::Default { path, initial }) => {
                    assert_eq!(path, expected.to_string_lossy());
                    assert_eq!(initial, Config::initialize(&home));
                }
                other => panic!("not the default: {:?}", other),
            }
        }
        None => assert_eq!(found, Err(ConfigError::NoHomeDirectory)),
    }
}

#[test]
fn default_source_is_below_the_given_home() {
    assert_eq!(
        default_config("/home/bob"),
        ConfigSource::Default {
            path: "/home/bob/.config/rustbackup/config.toml".to_string(),
            initial: Config::initialize("/home/bob"),
        }
    );
}

#[test]
fn config_command_updates_retains_and_validates() {
    let mut session = Session::new();
    let mut config = Config::initialize("/h");
    let args = ConfigArgs {
        config_path: text("my.toml"),
        source_path: text("tests/example/src"),
        file_name: text(".*\\.txt$"),
        date: text("2023-01-01"),
        ..no_config_args()
    };
    assert_eq!(command_config(&args, &mut session, &mut config), Ok(false));
    assert_eq!(session.get_current_config_path(), text("my.toml"));
    assert_eq!(config.path_config.source_path, "tests/example/src");
    assert_eq!(config.file_config.file_name, text(".*\\.txt$"));
    assert_eq!(config.file_config.date, text("2023-01-01"));

    // A command that names no file leaves the retained one.
    let show = ConfigArgs { output: true, ..no_config_args() };
    let before = config.clone();
    assert_eq!(command_config(&show, &mut session, &mut config), Ok(true));
    assert_eq!(session.get_current_config_path(), text("my.toml"));
    assert_eq!(config, before);
}

#[test]
fn config_command_refuses_an_unusable_filter() {
    let mut session = Session::new();
    let mut config = Config::initialize("/h");
    for pattern in ["[invalid", "[unclosed"] {
        let args = ConfigArgs { file_name: text(pattern), output: true, ..no_config_args() };
        assert_eq!(
            command_config(&args, &mut session, &mut config),
            Err(ConfigError::InvalidPattern)
        );
    }
    // A later command with a usable pattern goes through.
    let args = ConfigArgs { file_name: text(".*\\.rs$"), ..no_config_args() };
    assert_eq!(command_config(&args, &mut session, &mut config), Ok(false));
    let args = ConfigArgs { date: text("31.12.2024"), ..no_config_args() };
    assert_eq!(command_config(&args, &mut session, &mut config), Err(ConfigError::InvalidDate));
    // An unusable setting that is already there fails every command.
    let args = ConfigArgs { user: text("root"), ..no_config_args() };
    assert_eq!(command_config(&args, &mut session, &mut config), Err(ConfigError::InvalidDate));
}

#[test]
fn reset_command_resets_and_retains() {
    let mut session = Session::new();
    let mut config = sample();
    let args = ResetArgs { config_path: text("r.toml"), user: true, tar: true, ..no_reset_args() };
    assert_eq!(command_reset(&args, &mut session, &mut config), Ok(()));
    assert_eq!(session.get_current_config_path(), text("r.toml"));
    let mut wanted = sample();
    wanted.file_config.user = None;
    wanted.output_config.tar = false;
    assert_eq!(config, wanted);
}

#[test]
fn reset_command_finds_the_home_directory_for_the_paths() {
    let mut session = Session::new();
    let mut config = sample();
    let result = command_reset(&ResetArgs { all: true, ..no_reset_args() }, &mut session, &mut config);
    match dirs::home_dir() {
        Some(home) => {
            assert_eq!(result, Ok(()));
            assert_eq!(config, Config::initialize(&home.to_string_lossy()));
        }
        None => {
            assert_eq!(result, Err(ConfigError::NoHomeDirectory));
            assert_eq!(config, sample());
        }
    }
}

fn lookup<'a>(document: &'a toml::Table, table: &str, key: &str) -> Option<&'a toml::Value> {
    document.get(table).and_then(|t| t.as_table()).and_then(|t| t.get(key))
}

#[test]
fn rendered_configuration_reads_back_with_every_setting() {
    let text = sample().render();
    let document: toml::Table = toml::from_str(&text).unwrap();
    assert_eq!(document.len(), 3);
    let string = |table: &str, key: &str| {
        lookup(&document, table, key).and_then(|v| v.as_str()).map(|s| s.to_string())
    };
    assert_eq!(string("path_config", "source_path"), Some("tests/example/src".to_string()));
    assert_eq!(string("path_config", "dest_path"), Some("tests/example/dest".to_string()));
    assert_eq!(string("file_config", "file_path"), Some("some/path".to_string()));
    assert_eq!(string("file_config", "file_name"), Some(".*\\.rs$".to_string()));
    assert_eq!(string("file_config", "date"), Some("2023-01-01".to_string()));
    assert_eq!(string("file_config", "user"), Some("admin".to_string()));
    assert_eq!(lookup(&document, "file_config", "size").and_then(|v| v.as_integer()), Some(1000));
    assert_eq!(lookup(&document, "output_config", "tar").and_then(|v| v.as_bool()), Some(true));
    assert_eq!(lookup(&document, "output_config", "gzip").and_then(|v| v.as_bool()), Some(true));
    assert_eq!(document["path_config"].as_table().unwrap().len(), 2);
    assert_eq!(document["file_config"].as_table().unwrap().len(), 5);
    assert_eq!(document["output_config"].as_table().unwrap().len(), 2);
}

#[test]
fn rendered_configuration_leaves_absent_constraints_out() {
    let text = Config::initialize("/h").render();
    assert_eq!(
        text,
        "[path_config]\n\
         source_path = \"/h/.config/babycancer/source\"\n\
         dest_path = \"/h/.config/babycancer/dest\"\n\
         \n\
         [file_config]\n\
         \n\
         [output_config]\n\
         tar = false\n\
         gzip = false\n"
    );
    let mut config = Config::initialize("/h");
    config.file_config.size = Some(-7);
    config.file_config.user = Some("user_测试".to_string());
    let document: toml::Table = toml::from_str(&config.render()).unwrap();
    let filter = document["file_config"].as_table().unwrap();
    assert_eq!(filter.len(), 2);
    assert_eq!(filter["size"].as_integer(), Some(-7));
    assert_eq!(filter["user"].as_str(), Some("user_测试"));
}

#[test]
fn tables_hold_the_settings_in_order() {
    let config = sample();
    let keys = |table: toml_edit::Table| {
        table.iter().map(|(k, _)| k.to_string()).collect::<Vec<String>>()
    };
    assert_eq!(keys(config.path_config.table()), vec!["source_path", "dest_path"]);
    assert_eq!(
        keys(config.file_config.table()),
        vec!["file_path", "file_name", "date", "size", "user"]
    );
    assert_eq!(keys(config.output_config.table()), vec!["tar", "gzip"]);
    let partial = FileConfig { file_path: None, date: None, ..config.file_config.clone() };
    assert_eq!(keys(partial.table()), vec!["file_name", "size", "user"]);
    assert_eq!(partial.table()["size"].as_integer(), Some(1000));
    assert_eq!(partial.table()["file_name"].as_str(), Some(".*\\.rs$"));
    assert_eq!(config.output_config.table()["gzip"].as_bool(), Some(true));
    let document = config.table();
    let sections: Vec<String> = document.iter().map(|(k, _)| k.to_string()).collect();
    assert_eq!(sections, vec!["path_config", "file_config", "output_config"]);
    assert_eq!(document["file_config"]["user"].as_str(), Some("admin"));
}

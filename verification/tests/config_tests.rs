use std::path::PathBuf;

use clipshare::config::{
    after_create, after_load, config_path, config_path_in, Config, ConfigError, CreateAction,
    CreateEvent, CreationStage, DefaultCreation, LoadDecision, ReadOutcome,
};

fn sample_path() -> PathBuf {
    PathBuf::from("/home/alice/.config/clipshare.toml")
}

#[test]
fn parses_default_values() {
    let config = Config::test_default();
    assert_eq!(config.server_ip, "192.168.0.200");
    assert_eq!(config.server_port, 12345);
}

#[test]
fn config_file_lives_in_home_directory() {
    let path = config_path_in(Some(PathBuf::from("/home/alice"))).unwrap();
    assert_eq!(path, PathBuf::from("/home/alice/.config/clipshare.toml"));
}

#[test]
fn no_home_directory_is_an_error() {
    assert!(matches!(config_path_in(None), Err(ConfigError::NoHomeDir)));
}

#[test]
fn current_user_config_path_names_the_file() {
    match config_path() {
        Ok(path) => {
            assert_eq!(path.file_name().unwrap(), "clipshare.toml");
            assert_eq!(path.parent().unwrap().file_name().unwrap(), ".config");
        },
        Err(e) => assert!(matches!(e, ConfigError::NoHomeDir)),
    }
}

#[test]
fn error_messages() {
    assert_eq!(ConfigError::NoHomeDir.message(), "cannot determine home directory");
    assert_eq!(
        ConfigError::FileNotFound(sample_path()).message(),
        "config file not found: /home/alice/.config/clipshare.toml"
    );
    assert_eq!(
        ConfigError::Parse(sample_path(), "expected `=`".to_string()).message(),
        "failed to parse config /home/alice/.config/clipshare.toml: expected `=`"
    );
    assert_eq!(
        ConfigError::Serialize("unsupported type".to_string()).message(),
        "failed to serialize config: unsupported type"
    );
    assert_eq!(
        ConfigError::Io(sample_path(), "permission denied".to_string()).message(),
        "IO error on /home/alice/.config/clipshare.toml: permission denied"
    );
}

#[test]
fn reading_a_parsed_file_gives_its_config() {
    let parsed = Config { server_ip: "192.168.1.100".to_string(), server_port: 54321 };
    let loaded = Config::from_read(sample_path(), ReadOutcome::Parsed(parsed)).unwrap();
    assert_eq!(loaded.server_ip, "192.168.1.100");
    assert_eq!(loaded.server_port, 54321);
}

#[test]
fn reading_reports_each_failure_with_the_path() {
    match Config::from_read(sample_path(), ReadOutcome::Missing) {
        Err(ConfigError::FileNotFound(p)) => assert_eq!(p, sample_path()),
        other => panic!("unexpected {:?}", other),
    }
    match Config::from_read(sample_path(), ReadOutcome::Malformed("bad".to_string())) {
        Err(ConfigError::Parse(p, m)) => {
            assert_eq!(p, sample_path());
            assert_eq!(m, "bad");
        },
        other => panic!("unexpected {:?}", other),
    }
    match Config::from_read(sample_path(), ReadOutcome::Failed("denied".to_string())) {
        Err(ConfigError::Io(p, m)) => {
            assert_eq!(p, sample_path());
            assert_eq!(m, "denied");
        },
        other => panic!("unexpected {:?}", other),
    }
}

#[test]
fn missing_file_leads_to_creation() {
    let decision = after_load(Err(ConfigError::FileNotFound(sample_path())));
    assert!(matches!(decision, LoadDecision::CreateDefault));
}

#[test]
fn loaded_config_is_used() {
    match after_load(Ok(Config::test_default())) {
        LoadDecision::Use(c) => assert_eq!(c, Config::test_default()),
        other => panic!("unexpected {:?}", other),
    }
}

#[test]
fn parse_failure_aborts_with_message() {
    let loaded = Config::from_read(sample_path(), ReadOutcome::Malformed("bad".to_string()));
    match after_load(loaded) {
        LoadDecision::Abort(msg) => assert_eq!(
            msg,
            "Failed to load config: failed to parse config /home/alice/.config/clipshare.toml: bad"
        ),
        other => panic!("unexpected {:?}", other),
    }
}

#[test]
fn failed_creation_aborts_with_message() {
    let created = after_create(Err(ConfigError::Serialize("oops".to_string())));
    assert_eq!(
        created.unwrap_err(),
        "Failed to create default config: failed to serialize config: oops"
    );
    let ok = after_create(Ok(Config::test_default())).unwrap();
    assert_eq!(ok, Config::test_default());
}

#[test]
fn creation_runs_dir_serialize_write() {
    let (mut creation, action) = DefaultCreation::start(sample_path());
    assert_eq!(creation.stage, CreationStage::MakingDir);
    match action {
        CreateAction::CreateDir(dir) => assert_eq!(dir, PathBuf::from("/home/alice/.config")),
        other => panic!("unexpected {:?}", other),
    }
    match creation.step(CreateEvent::DirCreated) {
        Some(CreateAction::Serialize(c)) => assert_eq!(c, Config::test_default()),
        other => panic!("unexpected {:?}", other),
    }
    let text = "server_ip = \"192.168.0.200\"\nserver_port = 12345\n".to_string();
    match creation.step(CreateEvent::Serialized(text.clone())) {
        Some(CreateAction::Write(t)) => assert_eq!(t, text),
        other => panic!("unexpected {:?}", other),
    }
    match creation.step(CreateEvent::Written) {
        Some(CreateAction::Finish(Ok(c))) => {
            assert_eq!(c.server_ip, "192.168.0.200");
            assert_eq!(c.server_port, 12345);
        },
        other => panic!("unexpected {:?}", other),
    }
    assert_eq!(creation.stage, CreationStage::Finished);
}

#[test]
fn creation_without_parent_starts_by_serializing() {
    let (creation, action) = DefaultCreation::start(PathBuf::from("/"));
    assert_eq!(creation.stage, CreationStage::Serializing);
    assert!(matches!(action, CreateAction::Serialize(_)));
}

#[test]
fn creation_stops_at_first_failure() {
    let (mut creation, _) = DefaultCreation::start(sample_path());
    match creation.step(CreateEvent::DirFailed("read-only".to_string())) {
        Some(CreateAction::Finish(Err(ConfigError::Io(p, m)))) => {
            assert_eq!(p, sample_path());
            assert_eq!(m, "read-only");
        },
        other => panic!("unexpected {:?}", other),
    }
    assert_eq!(creation.stage, CreationStage::Finished);

    let (mut creation, _) = DefaultCreation::start(sample_path());
    creation.step(CreateEvent::DirCreated);
    match creation.step(CreateEvent::SerializeFailed("oops".to_string())) {
        Some(CreateAction::Finish(Err(ConfigError::Serialize(m)))) => assert_eq!(m, "oops"),
        other => panic!("unexpected {:?}", other),
    }

    let (mut creation, _) = DefaultCreation::start(sample_path());
    creation.step(CreateEvent::DirCreated);
    creation.step(CreateEvent::Serialized("x = 1".to_string()));
    match creation.step(CreateEvent::WriteFailed("disk full".to_string())) {
        Some(CreateAction::Finish(Err(ConfigError::Io(p, m)))) => {
            assert_eq!(p, sample_path());
            assert_eq!(m, "disk full");
        },
        other => panic!("unexpected {:?}", other),
    }
}

#[test]
fn event_out_of_turn_changes_nothing() {
    let (mut creation, _) = DefaultCreation::start(sample_path());
    assert!(creation.step(CreateEvent::Written).is_none());
    assert_eq!(creation.stage, CreationStage::MakingDir);
    creation.step(CreateEvent::DirFailed("no".to_string()));
    assert!(creation.step(CreateEvent::DirCreated).is_none());
    assert_eq!(creation.stage, CreationStage::Finished);
}

#[test]
fn error_messages_with_given_path_text() {
    let path = sample_path();
    assert_eq!(
        ConfigError::FileNotFound(path.clone()).message_showing("~/cfg"),
        "config file not found: ~/cfg"
    );
    assert_eq!(
        ConfigError::Parse(path.clone(), "bad".to_string()).message_showing("P"),
        "failed to parse config P: bad"
    );
    assert_eq!(
        ConfigError::Io(path, "gone".to_string()).message_showing(""),
        "IO error on : gone"
    );
    assert_eq!(
        ConfigError::NoHomeDir.message_showing("ignored"),
        "cannot determine home directory"
    );
    assert_eq!(
        ConfigError::Serialize("x".to_string()).message_showing("ignored"),
        "failed to serialize config: x"
    );
}

#[test]
fn loading_the_same_file_twice_agrees() {
    let first = after_load(Config::from_read(
        sample_path(),
        ReadOutcome::Parsed(Config { server_ip: "10.0.0.2".to_string(), server_port: 4000 }),
    ));
    let second = after_load(Config::from_read(
        sample_path(),
        ReadOutcome::Parsed(Config { server_ip: "10.0.0.2".to_string(), server_port: 4000 }),
    ));
    match (first, second) {
        (LoadDecision::Use(a), LoadDecision::Use(b)) => assert_eq!(a, b),
        other => panic!("unexpected {:?}", other),
    }
}

#[test]
fn config_clone_is_equal() {
    let c = Config { server_ip: "10.1.2.3".to_string(), server_port: 7 };
    assert_eq!(c.clone(), c);
}

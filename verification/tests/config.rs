use culper::config::path::config_path_in;
use culper::config::{initial_config, ConfigError, ConfigReader, CulperConfig, UserConfig};
use std::path::PathBuf;

fn document() -> CulperConfig {
    CulperConfig {
        me: UserConfig {
            name: "overwrite@mail.de".to_owned(),
            fingerprint: "1234 5678 ABCD ETC".to_owned(),
        },
        targets: None,
        owners: None,
        admins: None,
    }
}

#[test]
fn new_reader_keeps_the_given_path() {
    let reader = ConfigReader::new(Some("./culper.toml"));
    assert_eq!(reader.path, PathBuf::from("./culper.toml"));
    assert!(reader.config.is_none());
}

#[test]
fn new_reader_without_a_path_looks_for_the_default_file() {
    let reader = ConfigReader::new(None);
    assert_eq!(reader.path.file_name().unwrap(), ".culper.toml");
    assert!(reader.config.is_none());
}

#[test]
fn default_file_lies_in_the_home_directory() {
    assert_eq!(
        config_path_in(Some(PathBuf::from("/home/alice"))),
        PathBuf::from("/home/alice/.culper.toml")
    );
}

#[test]
fn default_file_lies_in_the_working_directory_without_a_home() {
    assert_eq!(config_path_in(None), PathBuf::from("./.culper.toml"));
}

#[test]
fn add_target_needs_a_document() {
    let mut reader = ConfigReader::new(Some("./culper.toml"));
    assert_eq!(reader.add_target("www.test.de", "alskjdflsajfd"), Err(ConfigError::NotSet));
    assert!(reader.config.is_none());
    assert_eq!(reader.path, PathBuf::from("./culper.toml"));
}

#[test]
fn config_error_messages() {
    assert_eq!(ConfigError::NotSet.message(), "Config is not set.");
    assert_eq!(ConfigError::NothingToWrite.message(), "No config available to write.");
    assert_eq!(
        ConfigError::NotFound("./culper.toml".to_owned()).message(),
        "./culper.toml not found. Create one or pass the --config_file option."
    );
}

#[test]
fn keep_stores_a_copy_and_hands_the_document_back() {
    let mut reader = ConfigReader::new(Some("./culper.toml"));
    let read = reader.keep(document());
    assert_eq!(read.me.name, "overwrite@mail.de");
    assert_eq!(read.me.fingerprint, "1234 5678 ABCD ETC");
    let held = reader.config.unwrap();
    assert_eq!(held.me.name, "overwrite@mail.de");
    assert_eq!(held.me.fingerprint, "1234 5678 ABCD ETC");
    assert!(held.targets.is_none());
    assert_eq!(reader.path, PathBuf::from("./culper.toml"));
}

#[test]
fn nothing_to_write_without_a_document() {
    let reader = ConfigReader::new(Some("./culper.toml"));
    assert_eq!(reader.document_to_write().err(), Some(ConfigError::NothingToWrite));
}

#[test]
fn the_held_document_is_the_one_to_write() {
    let mut reader = ConfigReader::new(Some("./culper.toml"));
    reader.update(document());
    reader.add_target("www.test.de", "alskjdflsajfd").unwrap();
    let config = reader.document_to_write().unwrap();
    assert_eq!(config.me.name, "overwrite@mail.de");
    assert_eq!(config.targets.as_ref().unwrap()[0].host, "www.test.de");
}

#[test]
fn update_then_add_target_lists_the_target() {
    let mut config_reader = ConfigReader::new(Some("./culper.toml"));

    config_reader.update(document());

    config_reader
        .add_target("www.test.de", "alskjdflsajfd")
        .unwrap();

    let config = config_reader.config.unwrap();
    let targets = config.targets.unwrap();
    assert_eq!(targets.len(), 1);
    assert_eq!(targets[0].host, "www.test.de");
    assert_eq!(targets[0].id, "alskjdflsajfd");
    assert_eq!(config.me.name, "overwrite@mail.de");
    assert_eq!(config.me.fingerprint, "1234 5678 ABCD ETC");
    assert!(config.owners.is_none());
    assert!(config.admins.is_none());
    assert_eq!(config_reader.path, PathBuf::from("./culper.toml"));
}

#[test]
fn targets_keep_their_order() {
    let mut reader = ConfigReader::new(Some("./culper.toml"));
    reader.update(document());
    reader.add_target("first.example", "1").unwrap();
    reader.add_target("second.example", "2").unwrap();
    reader.add_target("first.example", "1").unwrap();
    let targets = reader.config.unwrap().targets.unwrap();
    let hosts: Vec<&str> = targets.iter().map(|t| t.host.as_str()).collect();
    let ids: Vec<&str> = targets.iter().map(|t| t.id.as_str()).collect();
    assert_eq!(hosts, vec!["first.example", "second.example", "first.example"]);
    assert_eq!(ids, vec!["1", "2", "1"]);
}

#[test]
fn update_replaces_the_document() {
    let mut reader = ConfigReader::new(Some("./culper.toml"));
    reader.update(document());
    reader.add_target("www.test.de", "alskjdflsajfd").unwrap();
    reader.update(initial_config("test@test.de".to_owned(), "12345678".to_owned()));
    let config = reader.config.unwrap();
    assert_eq!(config.me.name, "test@test.de");
    assert!(config.targets.is_none());
}

#[test]
fn update_hands_the_reader_back() {
    let mut reader = ConfigReader::new(Some("./culper.toml"));
    reader
        .update(document())
        .add_target("www.test.de", "alskjdflsajfd")
        .unwrap();
    assert_eq!(reader.config.unwrap().targets.unwrap().len(), 1);
}

#[test]
fn initial_config_names_only_the_user() {
    let config = initial_config("test@test.de".to_owned(), "12345678".to_owned());
    assert_eq!(config.me.name, "test@test.de");
    assert_eq!(config.me.fingerprint, "12345678");
    assert!(config.targets.is_none());
    assert!(config.owners.is_none());
    assert!(config.admins.is_none());
}

#[test]
fn clone_keeps_the_document_and_the_path() {
    let mut reader = ConfigReader::new(Some("./culper.toml"));
    reader.update(document());
    reader.add_target("www.test.de", "alskjdflsajfd").unwrap();
    let copy = reader.clone();
    assert_eq!(copy.path, reader.path);
    let config = copy.config.unwrap();
    assert_eq!(config.me.name, "overwrite@mail.de");
    assert_eq!(config.me.fingerprint, "1234 5678 ABCD ETC");
    let targets = config.targets.unwrap();
    assert_eq!(targets.len(), 1);
    assert_eq!(targets[0].host, "www.test.de");
    assert_eq!(targets[0].id, "alskjdflsajfd");
    assert_eq!(reader.config.unwrap().targets.unwrap().len(), 1);
}

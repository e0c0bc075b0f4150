//! Paths, stamps and the steps' own answers, on chosen values.

use confy::codec::{decode, decoded, encode, encoded, EXTENSION};
use confy::error::ConfyError;
use confy::location::{get_configuration_file_path, path_in, Located};
use confy::reader::{text_of, Fetched};
use confy::stamp::{decimal_text, stamp_text};
use confy::writer::place;
use std::io;

#[test]
fn decimal_text_of_chosen_numbers() {
    assert_eq!(decimal_text(0), "0");
    assert_eq!(decimal_text(9), "9");
    assert_eq!(decimal_text(10), "10");
    assert_eq!(decimal_text(1234567890), "1234567890");
    assert_eq!(decimal_text(u128::MAX), "340282366920938463463374607431768211455");
}

#[test]
fn stamp_joins_process_thread_and_tick() {
    assert_eq!(stamp_text(12, 3, Some(456), 1), "12_ThreadId(3)_456");
    assert_eq!(stamp_text(12, 3, None, 1), "12_ThreadId(3)_1");
    assert_eq!(
        stamp_text(u32::MAX, u64::MAX, Some(0), 5),
        "4294967295_ThreadId(18446744073709551615)_0"
    );
}

#[test]
fn extension_is_toml() {
    assert_eq!(EXTENSION, "toml");
}

#[test]
fn place_finds_the_directory() {
    let step = place("/tmp/app/config.toml").expect("a parent");
    assert_eq!(step.directory(), "/tmp/app");
    assert_eq!(step.target(), "/tmp/app/config.toml");
    let step = place("config.toml").expect("a parent");
    assert_eq!(step.directory(), "");
}

#[test]
fn place_refuses_paths_without_parent() {
    for path in ["/", ""] {
        match place(path) {
            Err(ConfyError::BadConfigDirectory(reason)) => {
                assert_eq!(reason, format!("{:?} is a root or prefix", path))
            }
            _ => panic!("{:?} has no parent", path),
        }
    }
}

#[test]
fn staging_path_is_a_sibling_with_the_stamp() {
    let step = place("/tmp/app/config.toml").expect("a parent");
    let step = step.created(Ok(())).expect("directory is there");
    let first = step.draft("a = 1\n".to_string(), 12, 3, Some(456));
    assert_eq!(first.staging(), "/tmp/app/config.12_ThreadId(3)_456");
    let second = first.redraw(None);
    assert_eq!(second.staging(), "/tmp/app/config.12_ThreadId(3)_2");
    let third = second.redraw(Some(457));
    assert_eq!(third.staging(), "/tmp/app/config.12_ThreadId(3)_457");
    let fourth = third.redraw(None);
    assert_eq!(fourth.staging(), "/tmp/app/config.12_ThreadId(3)_4");
    let open = fourth.vacant();
    assert_eq!(open.staging(), "/tmp/app/config.12_ThreadId(3)_4");
    let write = open.opened(Ok(())).expect("open");
    assert_eq!(write.text(), "a = 1\n");
    assert_eq!(write.staging(), "/tmp/app/config.12_ThreadId(3)_4");
    let rename = write
        .written(Ok(()))
        .expect("written")
        .flushed(Ok(()))
        .expect("flushed");
    assert_eq!(rename.source(), "/tmp/app/config.12_ThreadId(3)_4");
    assert_eq!(rename.destination(), "/tmp/app/config.toml");
    assert!(rename.renamed(Ok(())).is_ok());
}

#[test]
fn staging_without_clock_counts_from_one() {
    let step = place("dir/name").expect("a parent");
    let step = step.created(Ok(())).expect("directory is there");
    let first = step.draft(String::new(), 1, 1, None);
    assert_eq!(first.staging(), "dir/name.1_ThreadId(1)_1");
}

#[test]
fn directory_failure_keeps_its_cause() {
    let step = place("/tmp/app/config.toml").expect("a parent");
    let cause = io::Error::from(io::ErrorKind::PermissionDenied);
    match step.created(Err(cause)) {
        Err(ConfyError::DirectoryCreationFailed(kept)) => {
            assert_eq!(kept.kind(), io::ErrorKind::PermissionDenied)
        }
        _ => panic!("the directory was not created"),
    }
}

#[test]
fn path_in_joins_directory_and_file_name() {
    let at = Located::At("/home/alice/.config/app".to_string());
    assert_eq!(
        path_in(at, Some("settings")).expect("a path"),
        "/home/alice/.config/app/settings.toml"
    );
    let at = Located::At("/home/alice/.config/app".to_string());
    assert_eq!(
        path_in(at, None).expect("a path"),
        "/home/alice/.config/app/default-config.toml"
    );
}

#[test]
fn path_in_without_home_is_a_bad_directory() {
    let err = path_in(Located::Nowhere, None).expect_err("no home");
    assert_eq!(
        err.message(),
        "Bad configuration directory: could not determine home directory path"
    );
}

#[test]
fn path_in_with_unreadable_directory_is_a_bad_directory() {
    let err = path_in(Located::Unreadable("\"/home/\\xFF\"".to_string()), Some("x"))
        .expect_err("no text");
    assert_eq!(
        err.message(),
        "Bad configuration directory: \"/home/\\xFF\" is not valid Unicode"
    );
}

#[test]
fn configuration_file_path_ends_in_the_file_name() {
    match get_configuration_file_path("example-app", Some("example-config")) {
        Ok(path) => assert!(path.ends_with("example-config.toml")),
        Err(err) => assert!(matches!(err, ConfyError::BadConfigDirectory(_))),
    }
    match get_configuration_file_path("example-app", None) {
        Ok(path) => assert!(path.ends_with("default-config.toml")),
        Err(err) => assert!(matches!(err, ConfyError::BadConfigDirectory(_))),
    }
}

#[test]
fn text_of_keeps_text_and_causes() {
    assert_eq!(text_of(Fetched::Text("a = 1".to_string())).expect("text"), "a = 1");
    let err = text_of(Fetched::Unopened(io::Error::from(io::ErrorKind::NotFound)))
        .expect_err("not opened");
    assert!(matches!(err, ConfyError::GeneralLoadError(_)));
    let err = text_of(Fetched::Unread(io::Error::from(io::ErrorKind::InvalidData)))
        .expect_err("not read");
    assert!(matches!(err, ConfyError::ReadConfigurationFileError(_)));
}

#[test]
fn codec_round_trips_a_table() {
    let mut table = toml::value::Table::new();
    table.insert("name".to_string(), toml::Value::String("Test".to_string()));
    table.insert("count".to_string(), toml::Value::Integer(42));
    let text = encode(&table).expect("encodes");
    let back: toml::value::Table = decode(&text).expect("decodes");
    assert_eq!(back, table);
}

#[test]
fn codec_answers_keep_text_value_and_cause() {
    assert_eq!(encoded(Ok("a = 1\n".to_string())).expect("text"), "a = 1\n");
    assert_eq!(decoded::<u8>(Ok(7)).expect("value"), 7);
    let cause = toml::from_str::<toml::value::Table>("=").expect_err("no document");
    assert!(matches!(
        decoded::<u8>(Err(cause.clone())),
        Err(ConfyError::BadTomlData(kept)) if kept == cause
    ));
    let cause = <toml::ser::Error as serde::ser::Error>::custom("no text");
    assert!(matches!(
        encoded(Err(cause.clone())),
        Err(ConfyError::SerializeTomlError(kept)) if kept == cause
    ));
}

#[test]
fn every_failure_has_its_message() {
    let io_error = || io::Error::from(io::ErrorKind::Other);
    assert_eq!(
        ConfyError::DirectoryCreationFailed(io_error()).message(),
        "Failed to create directory"
    );
    assert_eq!(
        ConfyError::GeneralLoadError(io_error()).message(),
        "Failed to load configuration file"
    );
    assert_eq!(
        ConfyError::BadConfigDirectory("why".to_string()).message(),
        "Bad configuration directory: why"
    );
    assert_eq!(
        ConfyError::WriteConfigurationFileError(io_error()).message(),
        "Failed to write configuration file"
    );
    assert_eq!(
        ConfyError::ReadConfigurationFileError(io_error()).message(),
        "Failed to read configuration file"
    );
    assert_eq!(
        ConfyError::OpenConfigurationFileError(io_error()).message(),
        "Failed to open configuration file"
    );
}

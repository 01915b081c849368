use nasne_exporter::config::{device_list, DEFAULT_PORT};
use nasne_exporter::error::ExportError;

fn list(raw: &str) -> Vec<String> {
    device_list(Some(raw)).unwrap()
}

#[test]
fn unset_device_list_is_a_configuration_error() {
    assert_eq!(device_list(None), Err(ExportError::Config));
}

#[test]
fn empty_device_list_is_a_configuration_error() {
    assert_eq!(device_list(Some("")), Err(ExportError::Config));
}

#[test]
fn single_device() {
    assert_eq!(list("10.0.0.5"), vec!["10.0.0.5"]);
}

#[test]
fn devices_are_separated_by_commas() {
    assert_eq!(list("10.0.0.5,10.0.0.6,nas.local"), vec!["10.0.0.5", "10.0.0.6", "nas.local"]);
}

#[test]
fn pieces_are_taken_as_they_stand() {
    assert_eq!(list("a, b"), vec!["a", " b"]);
    assert_eq!(list("a,,b"), vec!["a", "", "b"]);
    assert_eq!(list("a,"), vec!["a", ""]);
    assert_eq!(list(","), vec!["", ""]);
    assert_eq!(list("\u{e9},\u{1f600}x"), vec!["\u{e9}", "\u{1f600}x"]);
}

#[test]
fn default_port() {
    assert_eq!(DEFAULT_PORT, 8100);
}

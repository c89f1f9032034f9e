use k8s_insider::formats::FieldError;
use k8s_insider::version::{parse_latest_version, release_version, trim_start_matches};

#[test]
fn latest_version_from_release_description() {
    assert_eq!(parse_latest_version(r#"{"name": "v1.2.3", "id": 5}"#).unwrap(), "1.2.3");
    assert_eq!(parse_latest_version(r#"{"name": "0.4.0"}"#).unwrap(), "0.4.0");
    assert_eq!(parse_latest_version(r#"{"name": "vv2"}"#).unwrap(), "2");
    assert_eq!(parse_latest_version("not json"), Err(FieldError::InvalidDocument));
    assert_eq!(parse_latest_version("[1, 2]"), Err(FieldError::NotAMapping));
    assert_eq!(parse_latest_version(r#"{"tag": "v1"}"#), Err(FieldError::MissingField));
    assert_eq!(parse_latest_version(r#"{"name": 1}"#), Err(FieldError::NotAString));
}

#[test]
fn trimming_leading_characters() {
    assert_eq!(trim_start_matches("vvv1v", 'v'), "1v");
    assert_eq!(trim_start_matches("", 'v'), "");
    assert_eq!(trim_start_matches("vvv", 'v'), "");
    assert_eq!(release_version("v0.1.0"), "0.1.0");
    let once = release_version("vv3");
    assert_eq!(release_version(&once), once);
}

use tallr::utils::{
    current_timestamp, get_app_data_dir, get_auth_token_file_path, get_sessions_backup_path,
    get_sessions_file_path, get_setup_flag_path, join_path, timestamp_from,
};
use std::path::PathBuf;

#[test]
fn the_clock_is_in_seconds_since_1970() {
    let now = current_timestamp();
    let reference = std::time::SystemTime::now()
        .duration_since(std::time::UNIX_EPOCH)
        .unwrap()
        .as_secs() as i64;
    assert!(now > 1_600_000_000);
    assert!((reference - now).abs() <= 2);
}

#[test]
fn paths_are_joined_with_one_separator() {
    assert_eq!(join_path("/Users/u", "x.json"), "/Users/u/x.json");
    assert_eq!(join_path("/Users/u/", "x.json"), "/Users/u/x.json");
    assert_eq!(join_path("", "x.json"), "x.json");
    assert_eq!(join_path("/", "x.json"), "/x.json");
    assert_eq!(join_path("rel", "a/b"), "rel/a/b");
    assert_eq!(join_path("/Users/\u{fc}", ".hidden"), "/Users/\u{fc}/.hidden");
}

#[test]
fn joining_agrees_with_the_standard_library() {
    for base in ["/Users/u", "/Users/u/", "", "/", "rel", "a//", "/tmp/x y"] {
        for rel in ["x.json", "Library/Application Support/Tallr", ".setup_completed"] {
            let expected = PathBuf::from(base).join(rel);
            assert_eq!(join_path(base, rel), expected.to_str().unwrap(), "{base:?} {rel:?}");
        }
    }
}

#[test]
fn the_data_directory_lies_below_the_home() {
    assert_eq!(
        get_app_data_dir(Some("/Users/u")),
        Ok("/Users/u/Library/Application Support/Tallr".to_string())
    );
    assert_eq!(get_app_data_dir(None), Err("Unable to find HOME directory".to_string()));
}

#[test]
fn the_files_lie_in_the_data_directory() {
    let dir = "/Users/u/Library/Application Support/Tallr";
    assert_eq!(get_sessions_file_path(Some("/Users/u")), Ok(format!("{dir}/sessions.json")));
    assert_eq!(get_sessions_backup_path(Some("/Users/u")), Ok(format!("{dir}/sessions.json.backup")));
    assert_eq!(get_auth_token_file_path(Some("/Users/u/")), Ok(format!("{dir}/auth.token")));
    assert_eq!(get_setup_flag_path(Some("/Users/u")), Ok(format!("{dir}/.setup_completed")));
}

#[test]
fn the_backup_is_the_sessions_file_with_another_extension() {
    let sessions = PathBuf::from(get_sessions_file_path(Some("/Users/u")).unwrap());
    let backup = sessions.with_extension("json.backup");
    assert_eq!(get_sessions_backup_path(Some("/Users/u")).unwrap(), backup.to_str().unwrap());
}

#[test]
fn without_a_home_no_file_has_a_path() {
    let e = Err("Unable to find HOME directory".to_string());
    assert_eq!(get_sessions_file_path(None), e);
    assert_eq!(get_sessions_backup_path(None), e);
    assert_eq!(get_auth_token_file_path(None), e);
    assert_eq!(get_setup_flag_path(None), e);
}

#[test]
fn a_reading_of_the_clock_is_its_whole_seconds() {
    assert_eq!(timestamp_from(Some(0)), 0);
    assert_eq!(timestamp_from(Some(1)), 1);
    assert_eq!(timestamp_from(Some(1_700_000_000)), 1_700_000_000);
    assert_eq!(timestamp_from(Some(i64::MAX as u64)), i64::MAX);
}

#[test]
fn a_clock_before_1970_reads_as_zero() {
    assert_eq!(timestamp_from(None), 0);
}

#[test]
fn a_reading_beyond_the_greatest_timestamp_reads_as_the_greatest() {
    assert_eq!(timestamp_from(Some(i64::MAX as u64 + 1)), i64::MAX);
    assert_eq!(timestamp_from(Some(u64::MAX)), i64::MAX);
}

use exif_geocode::cmd_args::{LogLevel, Options, OptionsError};

#[test]
fn log_level_names() {
    assert_eq!(LogLevel::Off.as_ref(), "none");
    assert_eq!(LogLevel::Error.as_ref(), "error");
    assert_eq!(LogLevel::Warn.as_ref(), "warn");
    assert_eq!(LogLevel::Info.as_ref(), "info");
    assert_eq!(LogLevel::Debug.as_ref(), "debug");
    assert_eq!(LogLevel::Trace.as_ref(), "trace");
}

#[test]
fn log_level_to_string_is_its_name() {
    for level in [
        LogLevel::Off,
        LogLevel::Error,
        LogLevel::Warn,
        LogLevel::Info,
        LogLevel::Debug,
        LogLevel::Trace,
    ] {
        assert_eq!(level.to_string(), level.as_ref());
    }
}

#[test]
fn options_give_back_what_they_were_made_with() {
    let files = vec!["a.jpg".to_string(), "dir/b.jpg".to_string()];
    let opts = Options::new(LogLevel::Info, "cache/municd.json".to_string(), files.clone());
    assert_eq!(opts.log_level(), LogLevel::Info);
    assert_eq!(opts.municd_cache(), "cache/municd.json");
    assert_eq!(opts.target_files(), &files);
}

#[test]
fn options_without_files_are_refused() {
    let opts = Options::new(LogLevel::Off, "municd.json".to_string(), vec![]);
    assert_eq!(opts.validate(), Err(OptionsError::NoTargetFiles));
}

#[test]
fn options_with_a_file_are_accepted() {
    let opts = Options::new(LogLevel::Off, "municd.json".to_string(), vec!["a.jpg".to_string()]);
    assert_eq!(opts.validate(), Ok(()));
}

use lassie::{marshal, DaemonConfig, StartError, TimeSpan, LOG_LEVEL_DEBUG, LOG_LEVEL_OFF};

#[test]
fn default_config_marshals_to_empty_texts() {
    let b = marshal(&DaemonConfig::default(), false).unwrap();
    assert_eq!(b.temp_dir, vec![0u8]);
    assert_eq!(b.port, 0);
    assert_eq!(b.log_level, LOG_LEVEL_OFF);
    assert_eq!(b.max_blocks, 0);
    assert_eq!(b.global_timeout_nanos, 0);
    assert_eq!(b.access_token, vec![0u8]);
}

#[test]
fn log_level_follows_debug_logging() {
    let b = marshal(&DaemonConfig::default(), true).unwrap();
    assert_eq!(b.log_level, LOG_LEVEL_DEBUG);
    assert_eq!(LOG_LEVEL_DEBUG, 4);
    assert_eq!(LOG_LEVEL_OFF, 0);
}

#[test]
fn port_passes_through() {
    for port in [0u16, 1, 8080, u16::MAX] {
        let c = DaemonConfig {
            port,
            ..DaemonConfig::default()
        };
        assert_eq!(marshal(&c, false).unwrap().port, port);
    }
}

#[test]
fn working_directory_becomes_terminated_text() {
    let c = DaemonConfig {
        temp_dir: Some(b"/tmp/lassie".to_vec()),
        ..DaemonConfig::default()
    };
    assert_eq!(marshal(&c, false).unwrap().temp_dir, b"/tmp/lassie\0".to_vec());
}

#[test]
fn null_byte_in_working_directory_is_refused() {
    let c = DaemonConfig {
        temp_dir: Some(b"a\0b".to_vec()),
        ..DaemonConfig::default()
    };
    let err = marshal(&c, false).unwrap_err();
    assert_eq!(err, StartError::PathContainsNullByte("a\0b".to_string()));
    assert_eq!(
        err.message(),
        "failed to start daemon: null bytes are not allowed in paths (value: \"a\\0b\")"
    );
}

#[test]
fn non_utf8_working_directory_is_refused() {
    let c = DaemonConfig {
        temp_dir: Some(vec![b'f', 0xff]),
        ..DaemonConfig::default()
    };
    let err = marshal(&c, false).unwrap_err();
    assert_eq!(err, StartError::PathIsNotValidUtf8(vec![b'f', 0xff]));
    assert_eq!(
        err.message(),
        "failed to start daemon: paths that are not valid UTF-8 are not supported (value: \"f\\xFF\")"
    );
}

#[test]
fn non_utf8_check_comes_before_null_check() {
    let c = DaemonConfig {
        temp_dir: Some(vec![0, 0xff]),
        ..DaemonConfig::default()
    };
    assert_eq!(
        marshal(&c, false).unwrap_err(),
        StartError::PathIsNotValidUtf8(vec![0, 0xff])
    );
}

#[test]
fn access_token_becomes_terminated_text() {
    let c = DaemonConfig {
        access_token: Some("super_secret".to_string()),
        ..DaemonConfig::default()
    };
    assert_eq!(
        marshal(&c, false).unwrap().access_token,
        b"super_secret\0".to_vec()
    );
}

#[test]
fn non_ascii_access_token_keeps_its_bytes() {
    let c = DaemonConfig {
        access_token: Some("s\u{e9}cret".to_string()),
        ..DaemonConfig::default()
    };
    assert_eq!(
        marshal(&c, false).unwrap().access_token,
        vec![b's', 0xc3, 0xa9, b'c', b'r', b'e', b't', 0]
    );
}

#[test]
fn null_byte_in_access_token_is_refused() {
    let c = DaemonConfig {
        access_token: Some("to\0ken".to_string()),
        ..DaemonConfig::default()
    };
    let err = marshal(&c, false).unwrap_err();
    assert_eq!(err, StartError::AccessTokenContainsNullByte("to\0ken".to_string()));
    assert_eq!(
        err.message(),
        "failed to start daemon: null bytes are not allowed in the access token (value: \"to\\0ken\")"
    );
}

#[test]
fn path_checks_come_before_token_check() {
    let c = DaemonConfig {
        temp_dir: Some(b"\0".to_vec()),
        access_token: Some("\0".to_string()),
        ..DaemonConfig::default()
    };
    assert_eq!(
        marshal(&c, false).unwrap_err(),
        StartError::PathContainsNullByte("\0".to_string())
    );
}

#[test]
fn max_blocks_reach_the_record() {
    let c = DaemonConfig {
        max_blocks: Some(10),
        ..DaemonConfig::default()
    };
    assert_eq!(marshal(&c, false).unwrap().max_blocks, 10);
}

#[test]
fn global_timeout_in_nanoseconds() {
    let c = DaemonConfig {
        global_timeout: Some(TimeSpan::from_millis(1000)),
        ..DaemonConfig::default()
    };
    assert_eq!(marshal(&c, false).unwrap().global_timeout_nanos, 1_000_000_000);
}

#[test]
fn longest_timeout_that_fits() {
    let c = DaemonConfig {
        global_timeout: Some(TimeSpan::new(9_223_372_036, 854_775_807)),
        ..DaemonConfig::default()
    };
    assert_eq!(marshal(&c, false).unwrap().global_timeout_nanos, i64::MAX);
}

#[test]
fn timeout_one_nanosecond_too_long() {
    let span = TimeSpan::new(9_223_372_036, 854_775_808);
    let c = DaemonConfig {
        global_timeout: Some(span),
        ..DaemonConfig::default()
    };
    let err = marshal(&c, false).unwrap_err();
    assert_eq!(err, StartError::DurationIsTooLong(span));
    assert_eq!(
        err.message(),
        "failed to start daemon: duration 9223372036.854775808s is too long, Go limits the largest representable duration to approximately 290 years"
    );
}

#[test]
fn timeout_of_largest_span_is_refused() {
    let span = TimeSpan::from_secs(u64::MAX);
    let c = DaemonConfig {
        global_timeout: Some(span),
        ..DaemonConfig::default()
    };
    assert_eq!(marshal(&c, false).unwrap_err(), StartError::DurationIsTooLong(span));
}

#[test]
fn time_span_carries_whole_seconds() {
    let span = TimeSpan::new(1, 2_500_000_000);
    assert_eq!(span.as_secs(), 3);
    assert_eq!(span.subsec_nanos(), 500_000_000);
    assert_eq!(span.as_nanos(), 3_500_000_000);
    assert_eq!(TimeSpan::from_millis(1500).as_nanos(), 1_500_000_000);
}

#[test]
fn non_utf8_path_renders_bad_bytes_as_hex_escapes() {
    let err = StartError::PathIsNotValidUtf8(b"it's\xff\xc3/\n\"\xe9t\xc3\xa9".to_vec());
    assert_eq!(
        err.message(),
        "failed to start daemon: paths that are not valid UTF-8 are not supported (value: \"it\\'s\\xFF\\xC3/\\n\\\"\\xE9t\u{e9}\")"
    );
}

#[test]
fn path_rendering_of_plain_and_empty_bytes() {
    assert_eq!(lassie::path_debug_text(b""), "\"\"");
    assert_eq!(lassie::path_debug_text(b"/tmp/x"), "\"/tmp/x\"");
    assert_eq!(lassie::path_debug_text(&[0x00, 0x80]), "\"\\0\\x80\"");
}

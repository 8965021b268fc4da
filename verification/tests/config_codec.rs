use savant::config::{ConfigError, PedalConfig};

#[test]
fn pedal_config_rejects_newline_in_value() {
    let config = PedalConfig {
        left: "cmd+c\nright=evil".to_string(),
        middle: "cmd+a".to_string(),
        right: "cmd+v".to_string(),
    };
    let err = config.serialize().unwrap_err();
    assert_eq!(err, ConfigError::NewlineInValue { pedal: 0 });
}

#[test]
fn pedal_config_rejects_carriage_return_in_value() {
    let config = PedalConfig {
        left: "cmd+c".to_string(),
        middle: "cmd+a\rright=evil".to_string(),
        right: "cmd+v".to_string(),
    };
    let err = config.serialize().unwrap_err();
    assert_eq!(err, ConfigError::NewlineInValue { pedal: 1 });
}

#[test]
fn pedal_config_roundtrip() {
    let config = PedalConfig {
        left: "cmd+c".to_string(),
        middle: "cmd+a".to_string(),
        right: "cmd+v".to_string(),
    };

    let text = config.serialize().unwrap();
    let loaded = PedalConfig::parse(&text).unwrap();
    assert_eq!(loaded.left, config.left);
    assert_eq!(loaded.middle, config.middle);
    assert_eq!(loaded.right, config.right);
}

#[test]
fn pedal_config_load_returns_none_for_partial_file() {
    assert!(PedalConfig::parse("left=cmd+c\nmiddle=cmd+a\n").is_none());
}

#[test]
fn pedal_config_load_handles_extra_whitespace() {
    let loaded = PedalConfig::parse(
        "  left =  cmd+c  \n\n middle=  cmd+a\n right\t=\tcmd+v  \nunknown=foo\n",
    )
    .unwrap();

    assert_eq!(loaded.left, "cmd+c");
    assert_eq!(loaded.middle, "cmd+a");
    assert_eq!(loaded.right, "cmd+v");
}

#[test]
fn pedal_config_serialize_layout() {
    let config = PedalConfig {
        left: "cmd+z".to_string(),
        middle: "cmd+shift+z".to_string(),
        right: "cmd+s".to_string(),
    };
    assert_eq!(
        config.serialize().unwrap(),
        "left=cmd+z\nmiddle=cmd+shift+z\nright=cmd+s\n"
    );
}

#[test]
fn pedal_config_later_line_overwrites_earlier() {
    let loaded =
        PedalConfig::parse("left=first\nleft=second\nmiddle=m\nright=r\n").unwrap();
    assert_eq!(loaded.left, "second");
}

#[test]
fn pedal_config_rejects_empty_value() {
    assert!(PedalConfig::parse("left=\nmiddle=m\nright=r\n").is_none());
}

#[test]
fn pedal_config_ignores_lines_without_separator() {
    let loaded = PedalConfig::parse("junk\nleft=l\nmiddle=m\nright=r\n").unwrap();
    assert_eq!(loaded.left, "l");
    assert_eq!(loaded.middle, "m");
    assert_eq!(loaded.right, "r");
}

use savant::action::{format_action, KeyAction, ParseError};
use savant::keycodes::{
    key_name, modifier_names, parse_key_name, MOD_LEFT_ALT, MOD_LEFT_CTRL, MOD_LEFT_GUI,
    MOD_LEFT_SHIFT,
};

const KEY_A: u8 = 0x04;
const KEY_C: u8 = 0x06;
const KEY_ENTER: u8 = 0x28;
const KEY_ESC: u8 = 0x29;
const KEY_BACKSPACE: u8 = 0x2A;
const KEY_TAB: u8 = 0x2B;
const KEY_SPACE: u8 = 0x2C;
const KEY_F1: u8 = 0x3A;
const KEY_F5: u8 = 0x3E;
const KEY_F12: u8 = 0x45;
const KEY_RIGHT: u8 = 0x4F;
const KEY_LEFT: u8 = 0x50;
const KEY_DOWN: u8 = 0x51;
const KEY_UP: u8 = 0x52;

#[test]
fn parse_key_action_cmd_c() {
    let action = KeyAction::from_string("cmd+c").unwrap();
    assert_eq!(action.modifiers, MOD_LEFT_GUI);
    assert_eq!(action.key, KEY_C);
}

#[test]
fn parse_key_action_multi_modifiers() {
    let action = KeyAction::from_string("ctrl+shift+alt+f12").unwrap();
    assert_eq!(action.modifiers, MOD_LEFT_CTRL | MOD_LEFT_SHIFT | MOD_LEFT_ALT);
    assert_eq!(action.key, KEY_F12);
}

#[test]
fn parse_key_action_aliases() {
    let a1 = KeyAction::from_string("option+a").unwrap();
    let a2 = KeyAction::from_string("opt+a").unwrap();
    let a3 = KeyAction::from_string("alt+a").unwrap();

    assert_eq!(a1.modifiers, MOD_LEFT_ALT);
    assert_eq!(a2.modifiers, MOD_LEFT_ALT);
    assert_eq!(a3.modifiers, MOD_LEFT_ALT);

    assert_eq!(a1.key, KEY_A);
    assert_eq!(a2.key, KEY_A);
    assert_eq!(a3.key, KEY_A);
}

#[test]
fn parse_key_action_rejects_unknown_modifier() {
    let err = KeyAction::from_string("hyper+a").unwrap_err();
    assert_eq!(err, ParseError::UnknownModifier("hyper".to_string()));
}

#[test]
fn parse_key_action_rejects_unknown_key() {
    let err = KeyAction::from_string("cmd+notakey").unwrap_err();
    assert_eq!(err, ParseError::UnknownKey("notakey".to_string()));
}

#[test]
fn parse_key_action_rejects_empty() {
    let err = KeyAction::from_string("").unwrap_err();
    assert_eq!(err, ParseError::EmptyInput);
}

#[test]
fn parse_key_action_rejects_whitespace_only() {
    let err = KeyAction::from_string("   ").unwrap_err();
    assert_eq!(err, ParseError::EmptyInput);
}

#[test]
fn parse_key_action_rejects_leading_plus() {
    let err = KeyAction::from_string("+c").unwrap_err();
    assert_eq!(err, ParseError::MalformedSeparator);
}

#[test]
fn parse_key_action_rejects_trailing_plus() {
    let err = KeyAction::from_string("cmd+").unwrap_err();
    assert_eq!(err, ParseError::MalformedSeparator);
}

#[test]
fn parse_key_action_rejects_just_plus() {
    let err = KeyAction::from_string("+").unwrap_err();
    assert_eq!(err, ParseError::MalformedSeparator);
}

#[test]
fn parse_key_action_rejects_double_plus() {
    let err = KeyAction::from_string("cmd++c").unwrap_err();
    assert_eq!(err, ParseError::MalformedSeparator);
}

#[test]
fn parse_key_action_rejects_whitespace_component() {
    let err = KeyAction::from_string("cmd + + c").unwrap_err();
    assert_eq!(err, ParseError::MalformedSeparator);
}

#[test]
fn parse_key_name_punctuation() {
    assert_eq!(parse_key_name("-"), Some(0x2D));
    assert_eq!(parse_key_name("="), Some(0x2E));
    assert_eq!(parse_key_name("escape"), Some(KEY_ESC));
}

#[test]
fn parse_key_name_all_letters() {
    let expected_codes: Vec<(char, u8)> = ('a'..='z').zip(0x04u8..=0x1D).collect();

    for (letter, expected) in expected_codes {
        let result = parse_key_name(&letter.to_string());
        assert_eq!(
            result,
            Some(expected),
            "Failed for letter '{}': expected 0x{:02X}, got {:?}",
            letter,
            expected,
            result
        );
    }
}

#[test]
fn parse_key_name_all_numbers() {
    for (num, expected) in ('1'..='9').zip(0x1Eu8..=0x26) {
        let result = parse_key_name(&num.to_string());
        assert_eq!(
            result,
            Some(expected),
            "Failed for number '{}': expected 0x{:02X}, got {:?}",
            num,
            expected,
            result
        );
    }
    assert_eq!(parse_key_name("0"), Some(0x27));
}

#[test]
fn parse_key_name_all_function_keys() {
    for (i, expected) in (1u8..=12).zip(0x3Au8..=0x45) {
        let name = format!("f{}", i);
        let result = parse_key_name(&name);
        assert_eq!(
            result,
            Some(expected),
            "Failed for '{}': expected 0x{:02X}, got {:?}",
            name,
            expected,
            result
        );
    }
}

#[test]
fn parse_key_name_case_insensitive() {
    assert_eq!(parse_key_name("A"), parse_key_name("a"));
    assert_eq!(parse_key_name("ENTER"), parse_key_name("enter"));
    assert_eq!(parse_key_name("F12"), parse_key_name("f12"));
    assert_eq!(parse_key_name("SPACE"), parse_key_name("space"));
    assert_eq!(parse_key_name("Tab"), parse_key_name("TAB"));
}

#[test]
fn parse_key_name_special_keys() {
    assert_eq!(parse_key_name("enter"), Some(KEY_ENTER));
    assert_eq!(parse_key_name("return"), Some(KEY_ENTER));
    assert_eq!(parse_key_name("esc"), Some(KEY_ESC));
    assert_eq!(parse_key_name("escape"), Some(KEY_ESC));
    assert_eq!(parse_key_name("backspace"), Some(KEY_BACKSPACE));
    assert_eq!(parse_key_name("tab"), Some(KEY_TAB));
    assert_eq!(parse_key_name("space"), Some(KEY_SPACE));
}

#[test]
fn parse_key_name_arrow_keys() {
    assert_eq!(parse_key_name("left"), Some(KEY_LEFT));
    assert_eq!(parse_key_name("right"), Some(KEY_RIGHT));
    assert_eq!(parse_key_name("up"), Some(KEY_UP));
    assert_eq!(parse_key_name("down"), Some(KEY_DOWN));
}

#[test]
fn parse_key_name_returns_none_for_unknown() {
    assert_eq!(parse_key_name("notakey"), None);
    assert_eq!(parse_key_name(""), None);
    assert_eq!(parse_key_name("f13"), None);
    assert_eq!(parse_key_name("ctrl"), None);
    assert_eq!(parse_key_name("cmd"), None);
}

#[test]
fn key_action_cmd_modifier_aliases() {
    for alias in ["cmd", "command", "gui", "meta", "super"] {
        let action = KeyAction::from_string(&format!("{}+a", alias)).unwrap();
        assert_eq!(action.modifiers, MOD_LEFT_GUI, "Failed for '{}'", alias);
        assert_eq!(action.key, KEY_A);
    }
}

#[test]
fn key_action_ctrl_modifier_aliases() {
    for alias in ["ctrl", "control"] {
        let action = KeyAction::from_string(&format!("{}+a", alias)).unwrap();
        assert_eq!(action.modifiers, MOD_LEFT_CTRL, "Failed for '{}'", alias);
    }
}

#[test]
fn key_action_alt_modifier_aliases() {
    for alias in ["alt", "option", "opt"] {
        let action = KeyAction::from_string(&format!("{}+a", alias)).unwrap();
        assert_eq!(action.modifiers, MOD_LEFT_ALT, "Failed for '{}'", alias);
    }
}

#[test]
fn key_action_shift_modifier() {
    let action = KeyAction::from_string("shift+a").unwrap();
    assert_eq!(action.modifiers, MOD_LEFT_SHIFT);
    assert_eq!(action.key, KEY_A);
}

#[test]
fn key_action_all_four_modifiers() {
    let action = KeyAction::from_string("cmd+ctrl+shift+alt+a").unwrap();
    let expected = MOD_LEFT_GUI | MOD_LEFT_CTRL | MOD_LEFT_SHIFT | MOD_LEFT_ALT;
    assert_eq!(action.modifiers, expected);
    assert_eq!(action.key, KEY_A);
}

#[test]
fn key_action_modifier_order_independent() {
    let action1 = KeyAction::from_string("cmd+ctrl+a").unwrap();
    let action2 = KeyAction::from_string("ctrl+cmd+a").unwrap();
    assert_eq!(action1.modifiers, action2.modifiers);
    assert_eq!(action1.key, action2.key);

    let action3 = KeyAction::from_string("shift+alt+ctrl+cmd+z").unwrap();
    let action4 = KeyAction::from_string("cmd+ctrl+alt+shift+z").unwrap();
    assert_eq!(action3.modifiers, action4.modifiers);
}

#[test]
fn key_action_duplicate_modifiers_idempotent() {
    let action1 = KeyAction::from_string("cmd+a").unwrap();
    let action2 = KeyAction::from_string("cmd+cmd+a").unwrap();
    assert_eq!(action1.modifiers, action2.modifiers);
}

#[test]
fn key_action_modifier_case_insensitive() {
    let action1 = KeyAction::from_string("CMD+a").unwrap();
    let action2 = KeyAction::from_string("cmd+a").unwrap();
    assert_eq!(action1.modifiers, action2.modifiers);

    let action3 = KeyAction::from_string("CTRL+SHIFT+a").unwrap();
    let action4 = KeyAction::from_string("ctrl+shift+a").unwrap();
    assert_eq!(action3.modifiers, action4.modifiers);
}

#[test]
fn key_action_mixed_alias_combinations() {
    let action1 = KeyAction::from_string("command+control+a").unwrap();
    assert_eq!(action1.modifiers, MOD_LEFT_GUI | MOD_LEFT_CTRL);

    let action2 = KeyAction::from_string("gui+option+a").unwrap();
    assert_eq!(action2.modifiers, MOD_LEFT_GUI | MOD_LEFT_ALT);

    let action3 = KeyAction::from_string("meta+opt+shift+a").unwrap();
    assert_eq!(action3.modifiers, MOD_LEFT_GUI | MOD_LEFT_ALT | MOD_LEFT_SHIFT);

    let action4 = KeyAction::from_string("super+control+option+a").unwrap();
    assert_eq!(action4.modifiers, MOD_LEFT_GUI | MOD_LEFT_CTRL | MOD_LEFT_ALT);
}

#[test]
fn key_action_two_modifier_combinations() {
    let combos = [
        ("cmd+ctrl", MOD_LEFT_GUI | MOD_LEFT_CTRL),
        ("cmd+shift", MOD_LEFT_GUI | MOD_LEFT_SHIFT),
        ("cmd+alt", MOD_LEFT_GUI | MOD_LEFT_ALT),
        ("ctrl+shift", MOD_LEFT_CTRL | MOD_LEFT_SHIFT),
        ("ctrl+alt", MOD_LEFT_CTRL | MOD_LEFT_ALT),
        ("shift+alt", MOD_LEFT_SHIFT | MOD_LEFT_ALT),
    ];

    for (mods, expected) in combos {
        let input = format!("{}+a", mods);
        let action = KeyAction::from_string(&input).unwrap();
        assert_eq!(
            action.modifiers, expected,
            "Two-mod combo '{}' failed: expected 0x{:02X}, got 0x{:02X}",
            input, expected, action.modifiers
        );
    }
}

#[test]
fn key_action_three_modifier_combinations() {
    let combos = [
        ("cmd+ctrl+shift", MOD_LEFT_GUI | MOD_LEFT_CTRL | MOD_LEFT_SHIFT),
        ("cmd+ctrl+alt", MOD_LEFT_GUI | MOD_LEFT_CTRL | MOD_LEFT_ALT),
        ("cmd+shift+alt", MOD_LEFT_GUI | MOD_LEFT_SHIFT | MOD_LEFT_ALT),
        ("ctrl+shift+alt", MOD_LEFT_CTRL | MOD_LEFT_SHIFT | MOD_LEFT_ALT),
    ];

    for (mods, expected) in combos {
        let input = format!("{}+a", mods);
        let action = KeyAction::from_string(&input).unwrap();
        assert_eq!(
            action.modifiers, expected,
            "Three-mod combo '{}' failed: expected 0x{:02X}, got 0x{:02X}",
            input, expected, action.modifiers
        );
    }
}

#[test]
fn key_action_modifiers_with_function_keys() {
    let action1 = KeyAction::from_string("cmd+f1").unwrap();
    assert_eq!(action1.modifiers, MOD_LEFT_GUI);
    assert_eq!(action1.key, KEY_F1);

    let action2 = KeyAction::from_string("ctrl+shift+f5").unwrap();
    assert_eq!(action2.modifiers, MOD_LEFT_CTRL | MOD_LEFT_SHIFT);
    assert_eq!(action2.key, KEY_F5);

    let action3 = KeyAction::from_string("cmd+alt+f12").unwrap();
    assert_eq!(action3.modifiers, MOD_LEFT_GUI | MOD_LEFT_ALT);
    assert_eq!(action3.key, KEY_F12);
}

#[test]
fn key_action_modifiers_with_special_keys() {
    let test_cases = [
        ("cmd+enter", MOD_LEFT_GUI, KEY_ENTER),
        ("ctrl+space", MOD_LEFT_CTRL, KEY_SPACE),
        ("alt+tab", MOD_LEFT_ALT, KEY_TAB),
        ("shift+backspace", MOD_LEFT_SHIFT, KEY_BACKSPACE),
        ("cmd+escape", MOD_LEFT_GUI, KEY_ESC),
        ("cmd+return", MOD_LEFT_GUI, KEY_ENTER),
        ("cmd+esc", MOD_LEFT_GUI, KEY_ESC),
    ];

    for (input, expected_mod, expected_key) in test_cases {
        let action = KeyAction::from_string(input).unwrap();
        assert_eq!(action.modifiers, expected_mod, "Modifier for '{}' failed", input);
        assert_eq!(action.key, expected_key, "Key for '{}' failed", input);
    }
}

#[test]
fn key_action_modifiers_with_arrow_keys() {
    let test_cases = [
        ("cmd+left", MOD_LEFT_GUI, KEY_LEFT),
        ("cmd+right", MOD_LEFT_GUI, KEY_RIGHT),
        ("cmd+up", MOD_LEFT_GUI, KEY_UP),
        ("cmd+down", MOD_LEFT_GUI, KEY_DOWN),
        ("cmd+shift+left", MOD_LEFT_GUI | MOD_LEFT_SHIFT, KEY_LEFT),
        ("ctrl+alt+up", MOD_LEFT_CTRL | MOD_LEFT_ALT, KEY_UP),
    ];

    for (input, expected_mod, expected_key) in test_cases {
        let action = KeyAction::from_string(input).unwrap();
        assert_eq!(
            action.modifiers, expected_mod,
            "Arrow key modifier for '{}' failed",
            input
        );
        assert_eq!(action.key, expected_key, "Arrow key for '{}' failed", input);
    }
}

#[test]
fn key_action_modifiers_with_punctuation() {
    let action1 = KeyAction::from_string("cmd+-").unwrap();
    assert_eq!(action1.modifiers, MOD_LEFT_GUI);
    assert_eq!(action1.key, 0x2D);

    let action2 = KeyAction::from_string("cmd+=").unwrap();
    assert_eq!(action2.modifiers, MOD_LEFT_GUI);
    assert_eq!(action2.key, 0x2E);

    let action3 = KeyAction::from_string("ctrl+shift+-").unwrap();
    assert_eq!(action3.modifiers, MOD_LEFT_CTRL | MOD_LEFT_SHIFT);
}

#[test]
fn key_action_case_variations_all_aliases() {
    let test_cases = [
        ("CMD+x", MOD_LEFT_GUI),
        ("Cmd+x", MOD_LEFT_GUI),
        ("COMMAND+x", MOD_LEFT_GUI),
        ("Command+x", MOD_LEFT_GUI),
        ("GUI+x", MOD_LEFT_GUI),
        ("Gui+x", MOD_LEFT_GUI),
        ("META+x", MOD_LEFT_GUI),
        ("Meta+x", MOD_LEFT_GUI),
        ("SUPER+x", MOD_LEFT_GUI),
        ("Super+x", MOD_LEFT_GUI),
        ("CTRL+x", MOD_LEFT_CTRL),
        ("Ctrl+x", MOD_LEFT_CTRL),
        ("CONTROL+x", MOD_LEFT_CTRL),
        ("Control+x", MOD_LEFT_CTRL),
        ("ALT+x", MOD_LEFT_ALT),
        ("Alt+x", MOD_LEFT_ALT),
        ("OPTION+x", MOD_LEFT_ALT),
        ("Option+x", MOD_LEFT_ALT),
        ("OPT+x", MOD_LEFT_ALT),
        ("Opt+x", MOD_LEFT_ALT),
        ("SHIFT+x", MOD_LEFT_SHIFT),
        ("Shift+x", MOD_LEFT_SHIFT),
    ];

    for (input, expected_mod) in test_cases {
        let action = KeyAction::from_string(input).unwrap();
        assert_eq!(
            action.modifiers, expected_mod,
            "Case variation '{}' failed: expected 0x{:02X}, got 0x{:02X}",
            input, expected_mod, action.modifiers
        );
    }
}

#[test]
fn key_name_round_trips_through_parse() {
    // every code the name table supports parses back to itself
    let supported =
        (0x04u8..=0x31).chain(0x33u8..=0x45).chain(0x4Fu8..=0x52);
    for code in supported {
        let name = key_name(code);
        assert_eq!(
            parse_key_name(name),
            Some(code),
            "round trip failed for 0x{:02X} ({})",
            code,
            name
        );
    }
}

#[test]
fn key_name_unknown_codes() {
    assert_eq!(key_name(0x00), "None");
    assert_eq!(key_name(0x32), "Unknown");
    assert_eq!(key_name(0xFF), "Unknown");
    assert_eq!(key_name(0x06), "C");
    assert_eq!(key_name(0x28), "Enter");
}

#[test]
fn modifier_names_by_bit() {
    assert_eq!(modifier_names(0x00), Vec::<&str>::new());
    assert_eq!(modifier_names(0x01), vec!["LCtrl"]);
    assert_eq!(modifier_names(0x05), vec!["LCtrl", "LAlt"]);
    assert_eq!(modifier_names(0x08), vec!["LCmd"]);
    assert_eq!(
        modifier_names(0xFF),
        vec!["LCtrl", "LShift", "LAlt", "LCmd", "RCtrl", "RShift", "RAlt", "RCmd"]
    );
}

#[test]
fn format_action_symbols_and_upper_name() {
    let a = KeyAction { modifiers: MOD_LEFT_GUI, key: KEY_C };
    assert_eq!(format_action(&a), "\u{2318}C");
    let b = KeyAction { modifiers: MOD_LEFT_GUI | MOD_LEFT_SHIFT, key: KEY_ENTER };
    assert_eq!(format_action(&b), "\u{2318}\u{21E7}ENTER");
    let c = KeyAction { modifiers: 0, key: KEY_F12 };
    assert_eq!(format_action(&c), "F12");
}

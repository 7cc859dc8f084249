//! Keys, typed values and their text.

use md_wr::decimal::{parse_integer, render_count, render_integer};
use md_wr::key::{
    config_file_name, key_kind, KeyKind, FILE_EXTENSION, NAVIGATION_PANEL_VISIBLE, PANED_POSITION,
};
use md_wr::text::same_text;
use md_wr::value::{
    parse_boolean, render_boolean, SettingValue, SettingsError, FALSE_TEXT, TRUE_TEXT,
};

#[test]
fn same_text_compares_characters() {
    assert!(same_text("", ""));
    assert!(same_text("paned-position", "paned-position"));
    assert!(same_text("größe", "größe"));
    assert!(!same_text("paned-position", "paned-positio"));
    assert!(!same_text("paned-position", "paned-positioN"));
    assert!(!same_text("a", ""));
    assert!(!same_text("é", "e"));
}

#[test]
fn recognised_keys_are_typed() {
    assert_eq!(NAVIGATION_PANEL_VISIBLE, "navigation-panel-visible");
    assert_eq!(PANED_POSITION, "paned-position");
    assert_eq!(key_kind("navigation-panel-visible"), KeyKind::Boolean);
    assert_eq!(key_kind("paned-position"), KeyKind::Integer);
}

#[test]
fn every_other_key_holds_text() {
    for key in [
        "user-notes",
        "",
        "paned-position ",
        "Paned-Position",
        "navigation-panel-visible.txt",
        "navigation_panel_visible",
    ] {
        assert_eq!(key_kind(key), KeyKind::Text);
    }
}

#[test]
fn file_name_is_key_and_extension() {
    assert_eq!(FILE_EXTENSION, ".txt");
    assert_eq!(config_file_name("user-notes"), "user-notes.txt");
    assert_eq!(config_file_name("paned-position"), "paned-position.txt");
    assert_eq!(config_file_name(""), ".txt");
    assert_eq!(config_file_name("notes.txt"), "notes.txt.txt");
}

#[test]
fn booleans_are_exactly_true_and_false() {
    assert_eq!(TRUE_TEXT, "true");
    assert_eq!(FALSE_TEXT, "false");
    assert_eq!(parse_boolean("true"), Some(true));
    assert_eq!(parse_boolean("false"), Some(false));
    for text in ["", "True", "TRUE", " true", "true ", "1", "0", "yes", "falsee", "tru"] {
        assert_eq!(parse_boolean(text), None);
    }
}

#[test]
fn parse_boolean_agrees_with_the_standard_parser() {
    for text in ["true", "false", "", "True", " true", "true\n", "t", "falsey"] {
        assert_eq!(parse_boolean(text), text.parse::<bool>().ok());
    }
}

#[test]
fn render_boolean_writes_true_and_false() {
    assert_eq!(render_boolean(true), "true");
    assert_eq!(render_boolean(false), "false");
    assert_eq!(parse_boolean(&render_boolean(true)), Some(true));
    assert_eq!(parse_boolean(&render_boolean(false)), Some(false));
}

#[test]
fn parse_integer_reads_signed_decimals() {
    assert_eq!(parse_integer("0"), Some(0));
    assert_eq!(parse_integer("250"), Some(250));
    assert_eq!(parse_integer("-250"), Some(-250));
    assert_eq!(parse_integer("+250"), Some(250));
    assert_eq!(parse_integer("-0"), Some(0));
    assert_eq!(parse_integer("+0"), Some(0));
    assert_eq!(parse_integer("007"), Some(7));
    assert_eq!(parse_integer("-007"), Some(-7));
    assert_eq!(parse_integer("2147483647"), Some(i32::MAX));
    assert_eq!(parse_integer("-2147483648"), Some(i32::MIN));
    assert_eq!(parse_integer("00000000000000000000002147483647"), Some(i32::MAX));
}

#[test]
fn parse_integer_rejects_everything_else() {
    for text in [
        "",
        "+",
        "-",
        "+-5",
        "--5",
        "5-",
        " 5",
        "5 ",
        "5\n",
        "1_000",
        "1,000",
        "12.5",
        "0x10",
        "1e3",
        "not-a-number",
        "٣",
        "５",
        "2147483648",
        "+2147483648",
        "-2147483649",
        "99999999999999999999999999999999",
        "-99999999999999999999999999999999",
    ] {
        assert_eq!(parse_integer(text), None, "{:?}", text);
    }
}

#[test]
fn parse_integer_agrees_with_the_standard_parser() {
    let mut texts: Vec<String> = Vec::new();
    for sign in ["", "+", "-", "++", " "] {
        for digits in [
            "", "0", "00", "1", "9", "10", "42", "0042", "2147483646", "2147483647",
            "2147483648", "2147483649", "4294967295", "4294967296", "21474836470", "1a", "a1",
            "1 ", "１",
        ] {
            texts.push(format!("{}{}", sign, digits));
        }
    }
    for text in &texts {
        assert_eq!(parse_integer(text), text.parse::<i32>().ok(), "{:?}", text);
    }
}

#[test]
fn render_integer_writes_canonical_decimals() {
    assert_eq!(render_integer(0), "0");
    assert_eq!(render_integer(7), "7");
    assert_eq!(render_integer(10), "10");
    assert_eq!(render_integer(250), "250");
    assert_eq!(render_integer(-1), "-1");
    assert_eq!(render_integer(-250), "-250");
    assert_eq!(render_integer(1000000), "1000000");
    assert_eq!(render_integer(i32::MAX), "2147483647");
    assert_eq!(render_integer(i32::MIN), "-2147483648");
}

#[test]
fn integers_round_trip_through_their_text() {
    let mut values: Vec<i32> = vec![i32::MIN, i32::MIN + 1, -1, 0, 1, i32::MAX - 1, i32::MAX];
    let mut v: i32 = 1;
    while v < 1_000_000_000 {
        values.push(v);
        values.push(-v);
        values.push(v * 2 - 1);
        v *= 10;
    }
    for value in values {
        let text = render_integer(value);
        assert_eq!(text, value.to_string());
        assert_eq!(parse_integer(&text), Some(value));
    }
}

#[test]
fn render_count_writes_decimals() {
    assert_eq!(render_count(0), "0");
    assert_eq!(render_count(9), "9");
    assert_eq!(render_count(10), "10");
    assert_eq!(render_count(123456789), "123456789");
    assert_eq!(render_count(usize::MAX), usize::MAX.to_string());
}

#[test]
fn setting_value_knows_its_kind() {
    assert_eq!(SettingValue::Boolean(true).kind(), KeyKind::Boolean);
    assert_eq!(SettingValue::Integer(3).kind(), KeyKind::Integer);
    assert_eq!(SettingValue::Text(String::new()).kind(), KeyKind::Text);
}

#[test]
fn zero_values_are_false_zero_and_empty() {
    assert_eq!(SettingValue::zero(KeyKind::Boolean), SettingValue::Boolean(false));
    assert_eq!(SettingValue::zero(KeyKind::Integer), SettingValue::Integer(0));
    assert_eq!(SettingValue::zero(KeyKind::Text), SettingValue::Text(String::new()));
}

#[test]
fn setting_value_parses_by_kind() {
    assert_eq!(
        SettingValue::parse(KeyKind::Boolean, "false"),
        Ok(SettingValue::Boolean(false))
    );
    assert_eq!(
        SettingValue::parse(KeyKind::Integer, "+12"),
        Ok(SettingValue::Integer(12))
    );
    assert_eq!(
        SettingValue::parse(KeyKind::Text, "12"),
        Ok(SettingValue::Text("12".to_string()))
    );
    assert_eq!(
        SettingValue::parse(KeyKind::Text, ""),
        Ok(SettingValue::Text(String::new()))
    );
}

#[test]
fn setting_value_parse_errors_name_the_kind() {
    assert_eq!(
        SettingValue::parse(KeyKind::Boolean, "12"),
        Err(SettingsError::InvalidBoolean)
    );
    assert_eq!(
        SettingValue::parse(KeyKind::Integer, "true"),
        Err(SettingsError::InvalidInteger)
    );
    assert_eq!(
        SettingValue::parse(KeyKind::Integer, ""),
        Err(SettingsError::InvalidInteger)
    );
}

#[test]
fn setting_value_renders_canonical_text() {
    assert_eq!(SettingValue::Boolean(true).render(), "true");
    assert_eq!(SettingValue::Integer(-3).render(), "-3");
    assert_eq!(SettingValue::Text("a b".to_string()).render(), "a b");
}

#[test]
fn values_round_trip_through_their_canonical_text() {
    for value in [
        SettingValue::Boolean(true),
        SettingValue::Boolean(false),
        SettingValue::Integer(0),
        SettingValue::Integer(i32::MIN),
        SettingValue::Integer(i32::MAX),
        SettingValue::Text(String::new()),
        SettingValue::Text("true".to_string()),
        SettingValue::Text("  spaced  ".to_string()),
    ] {
        assert_eq!(SettingValue::parse(value.kind(), &value.render()), Ok(value));
    }
}

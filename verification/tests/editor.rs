//! The state of the text view and the measures of a text.

use md_wr::counts::{char_is_whitespace, text_is_blank};
use md_wr::editor::{
    Counts, CustomTextView, NavigationRecord, PanelLayout, SaveRequest, CHARACTERS_PREFIX,
    DEFAULT_PANED_POSITION, DEFAULT_PANED_POSITION_TEXT, HIDDEN_ICON, HIDDEN_TOOLTIP,
    HIDE_DELAY_MS, SHOWN_ICON, SHOWN_TOOLTIP, WORDS_PREFIX,
};

fn record(visible: &str, position: &str) -> NavigationRecord {
    NavigationRecord {
        visible: visible.to_string(),
        position: position.to_string(),
    }
}

fn shown(position: Option<i32>) -> PanelLayout {
    PanelLayout {
        visible: true,
        icon_name: "sidebar-show-symbolic-rtl",
        tooltip: "Hide Navigation Panel",
        position,
        detach_after_ms: None,
    }
}

fn hidden(detach_after_ms: Option<u64>) -> PanelLayout {
    PanelLayout {
        visible: false,
        icon_name: "view-dual-symbolic",
        tooltip: "Show Navigation Panel",
        position: None,
        detach_after_ms,
    }
}

#[test]
fn constants_have_their_values() {
    assert_eq!(DEFAULT_PANED_POSITION, 250);
    assert_eq!(DEFAULT_PANED_POSITION_TEXT, "250");
    assert_eq!(HIDE_DELAY_MS, 200);
    assert_eq!(SHOWN_ICON, "sidebar-show-symbolic-rtl");
    assert_eq!(HIDDEN_ICON, "view-dual-symbolic");
    assert_eq!(SHOWN_TOOLTIP, "Hide Navigation Panel");
    assert_eq!(HIDDEN_TOOLTIP, "Show Navigation Panel");
    assert_eq!(CHARACTERS_PREFIX, "Characters: ");
    assert_eq!(WORDS_PREFIX, "Words: ");
}

#[test]
fn new_view_starts_hidden_and_without_key() {
    for backend_present in [true, false] {
        let view = CustomTextView::new(backend_present);
        assert_eq!(view.store().has_backend(), backend_present);
        assert!(!view.is_loading());
        assert!(!view.nav_visible());
        assert_eq!(view.paned_position(), 250);
        assert_eq!(view.save_to_settings("text"), SaveRequest::NoKey);
        assert_eq!(view.on_text_changed("text"), None);
        assert_eq!(view.navigation_record(), record("false", "250"));
    }
}

#[test]
fn with_settings_key_saves_on_change() {
    let view = CustomTextView::with_settings_key(false, "user-notes");
    assert!(!view.store().has_backend());
    assert!(!view.is_loading());
    assert_eq!(
        view.on_text_changed("hello"),
        Some(SaveRequest::Write {
            key: "user-notes".to_string(),
            value: "hello".to_string(),
        })
    );
}

#[test]
fn save_needs_a_key() {
    let mut view = CustomTextView::new(true);
    assert_eq!(view.save_to_settings("abc"), SaveRequest::NoKey);
    view.set_settings_key("user-notes");
    assert_eq!(
        view.save_to_settings("abc"),
        SaveRequest::Write {
            key: "user-notes".to_string(),
            value: "abc".to_string(),
        }
    );
    view.set_settings_key("other");
    assert_eq!(
        view.save_to_settings(""),
        SaveRequest::Write {
            key: "other".to_string(),
            value: String::new(),
        }
    );
}

#[test]
fn changes_are_saved_only_with_auto_save_and_key() {
    let mut view = CustomTextView::new(true);
    view.set_auto_save(true);
    assert_eq!(view.on_text_changed("x"), None);
    view.set_settings_key("user-notes");
    assert_eq!(
        view.on_text_changed("x"),
        Some(SaveRequest::Write {
            key: "user-notes".to_string(),
            value: "x".to_string(),
        })
    );
    view.set_auto_save(false);
    assert_eq!(view.on_text_changed("x"), None);
}

#[test]
fn nothing_is_saved_while_loading() {
    let mut view = CustomTextView::with_settings_key(true, "user-notes");
    assert_eq!(view.load_from_settings(), Some("user-notes".to_string()));
    assert!(view.is_loading());
    assert_eq!(view.save_to_settings("loaded"), SaveRequest::Loading);
    assert_eq!(view.on_text_changed("loaded"), Some(SaveRequest::Loading));
    view.finish_loading();
    assert!(!view.is_loading());
    assert_eq!(
        view.save_to_settings("loaded"),
        SaveRequest::Write {
            key: "user-notes".to_string(),
            value: "loaded".to_string(),
        }
    );
}

#[test]
fn load_without_key_does_nothing() {
    let mut view = CustomTextView::new(false);
    assert_eq!(view.load_from_settings(), None);
    assert!(!view.is_loading());
}

#[test]
fn toggle_on_shows_the_panel_at_the_remembered_position() {
    let mut view = CustomTextView::new(true);
    let outcome = view.on_nav_toggle_clicked(true, 700);
    assert_eq!(outcome.layout, shown(Some(250)));
    assert_eq!(outcome.record, record("true", "250"));
    assert!(view.nav_visible());
    assert_eq!(view.paned_position(), 250);
}

#[test]
fn toggle_off_remembers_where_the_splitter_stands() {
    let mut view = CustomTextView::new(true);
    view.on_nav_toggle_clicked(true, 0);
    let outcome = view.on_nav_toggle_clicked(false, 412);
    assert_eq!(outcome.layout, hidden(Some(200)));
    assert_eq!(outcome.record, record("false", "412"));
    assert!(!view.nav_visible());
    assert_eq!(view.paned_position(), 412);

    let again = view.on_nav_toggle_clicked(true, 9);
    assert_eq!(again.layout, shown(Some(412)));
    assert_eq!(again.record, record("true", "412"));
}

#[test]
fn toggle_off_accepts_any_position() {
    let mut view = CustomTextView::new(false);
    let outcome = view.on_nav_toggle_clicked(false, -1);
    assert_eq!(outcome.record, record("false", "-1"));
    assert_eq!(view.paned_position(), -1);
    let outcome = view.on_nav_toggle_clicked(false, i32::MIN);
    assert_eq!(outcome.record, record("false", "-2147483648"));
}

#[test]
fn loaded_navigation_state_is_taken_over() {
    let mut view = CustomTextView::new(true);
    assert_eq!(view.load_navigation_state("true", "300"), shown(Some(300)));
    assert!(view.nav_visible());
    assert_eq!(view.paned_position(), 300);

    let mut view = CustomTextView::new(true);
    assert_eq!(view.load_navigation_state("false", "300"), hidden(None));
    assert!(!view.nav_visible());
    assert_eq!(view.paned_position(), 300);
}

#[test]
fn loaded_navigation_state_falls_back_on_defaults() {
    let mut view = CustomTextView::new(false);
    assert_eq!(view.load_navigation_state("", ""), hidden(None));
    assert!(!view.nav_visible());
    assert_eq!(view.paned_position(), 250);

    let mut view = CustomTextView::new(false);
    view.on_nav_toggle_clicked(false, 90);
    assert_eq!(view.load_navigation_state("true", "wide"), shown(Some(250)));
    assert_eq!(view.paned_position(), 250);

    let mut view = CustomTextView::new(false);
    assert_eq!(view.load_navigation_state("True", "120"), hidden(None));
    assert_eq!(view.paned_position(), 120);
}

#[test]
fn loaded_position_must_be_positive() {
    let mut view = CustomTextView::new(true);
    assert_eq!(view.load_navigation_state("true", "0"), shown(None));
    assert_eq!(view.paned_position(), 250);

    let mut view = CustomTextView::new(true);
    view.on_nav_toggle_clicked(false, 77);
    assert_eq!(view.load_navigation_state("true", "-5"), shown(None));
    assert_eq!(view.paned_position(), 77);

    let mut view = CustomTextView::new(true);
    assert_eq!(view.load_navigation_state("true", "1"), shown(Some(1)));
    assert_eq!(view.paned_position(), 1);
}

#[test]
fn defaults_for_the_navigation_reads_load_the_initial_state() {
    let mut view = CustomTextView::new(false);
    let layout = view.load_navigation_state("false", DEFAULT_PANED_POSITION_TEXT);
    assert_eq!(layout, hidden(None));
    assert_eq!(view.paned_position(), DEFAULT_PANED_POSITION);
}

#[test]
fn dispose_saves_text_only_with_auto_save() {
    let mut view = CustomTextView::new(true);
    view.on_nav_toggle_clicked(true, 0);
    let outcome = view.dispose("last words");
    assert_eq!(outcome.save, None);
    assert_eq!(outcome.record, record("true", "250"));

    view.set_auto_save(true);
    assert_eq!(view.dispose("last words").save, Some(SaveRequest::NoKey));

    view.set_settings_key("user-notes");
    assert_eq!(
        view.dispose("last words").save,
        Some(SaveRequest::Write {
            key: "user-notes".to_string(),
            value: "last words".to_string(),
        })
    );
}

#[test]
fn whitespace_is_what_unicode_says() {
    let mut c: u32 = 0;
    while c <= 0x10FFFF {
        if let Some(ch) = char::from_u32(c) {
            assert_eq!(char_is_whitespace(ch), ch.is_whitespace(), "U+{:04X}", c);
        }
        c += 1;
    }
}

#[test]
fn char_count_counts_characters_not_bytes() {
    assert_eq!(CustomTextView::char_count(""), 0);
    assert_eq!(CustomTextView::char_count("abc"), 3);
    assert_eq!(CustomTextView::char_count("a b\n"), 4);
    assert_eq!(CustomTextView::char_count("größe"), 5);
    assert_eq!(CustomTextView::char_count("日本語"), 3);
}

#[test]
fn word_count_counts_runs_between_whitespace() {
    assert_eq!(CustomTextView::word_count(""), 0);
    assert_eq!(CustomTextView::word_count("   "), 0);
    assert_eq!(CustomTextView::word_count("one"), 1);
    assert_eq!(CustomTextView::word_count("one two"), 2);
    assert_eq!(CustomTextView::word_count("  one   two  "), 2);
    assert_eq!(CustomTextView::word_count("one\ntwo\tthree\r\nfour"), 4);
    assert_eq!(CustomTextView::word_count("one\u{00A0}two\u{3000}three"), 3);
    assert_eq!(CustomTextView::word_count("hyphen-ated, punct."), 2);
}

#[test]
fn word_count_agrees_with_split_whitespace() {
    for text in [
        "",
        " ",
        "a",
        " a",
        "a ",
        "a b",
        "a  b",
        "\ta\nb\r\n c \u{2003}d\u{205F}",
        "Start writing your masterpiece...",
        "日本語 テキスト",
        "\u{200B}zero\u{200B}width",
        "\u{0085}next\u{0085}line",
    ] {
        assert_eq!(
            CustomTextView::word_count(text),
            text.split_whitespace().count(),
            "{:?}",
            text
        );
        assert_eq!(CustomTextView::char_count(text), text.chars().count());
    }
}

#[test]
fn blank_text_is_empty_or_whitespace() {
    assert!(text_is_blank(""));
    assert!(text_is_blank(" "));
    assert!(text_is_blank(" \t\r\n\u{00A0}\u{2028}"));
    assert!(!text_is_blank("a"));
    assert!(!text_is_blank("  a  "));
    assert!(!text_is_blank("\u{200B}"));
    for text in ["", "  ", " x", "\n\n", "\u{3000}", "_"] {
        assert_eq!(text_is_blank(text), text.trim().is_empty(), "{:?}", text);
    }
}

#[test]
fn update_counts_fills_counters_and_placeholder() {
    assert_eq!(
        CustomTextView::update_counts(""),
        Counts {
            characters: 0,
            words: 0,
            characters_label: "Characters: 0".to_string(),
            words_label: "Words: 0".to_string(),
            placeholder_visible: true,
        }
    );
    assert_eq!(
        CustomTextView::update_counts("  \n"),
        Counts {
            characters: 3,
            words: 0,
            characters_label: "Characters: 3".to_string(),
            words_label: "Words: 0".to_string(),
            placeholder_visible: true,
        }
    );
    assert_eq!(
        CustomTextView::update_counts("twelve words is more than this one has"),
        Counts {
            characters: 38,
            words: 8,
            characters_label: "Characters: 38".to_string(),
            words_label: "Words: 8".to_string(),
            placeholder_visible: false,
        }
    );
}

//! Typed setting values and their canonical text.

use vstd::prelude::*;
use crate::decimal::{
    decimal_text, integer_of_text, lemma_integer_round_trip, parse_integer, render_integer,
};
use crate::key::KeyKind;
use crate::text::same_text;

verus! {

/// Why a call on the settings store failed.
#[derive(Clone, Copy, Debug, PartialEq, Eq, Structural)]
pub enum SettingsError {
    /// The value given for a boolean key is neither `true` nor `false`.
    InvalidBoolean,
    /// The value given for an integer key is no 32-bit decimal integer.
    InvalidInteger,
    /// The flat file of the key could not be written.
    WriteFailed,
}

/// The text of `true`.
pub const TRUE_TEXT: &'static str = "true";

/// The text of `false`.
pub const FALSE_TEXT: &'static str = "false";

/// A value as the structured backend holds it.
#[derive(Clone, Debug, PartialEq, Eq)]
pub enum SettingValue {
    Boolean(bool),
    Integer(i32),
    Text(String),
}

/// The mathematical content of a [`SettingValue`].
pub enum SettingValueView {
    Boolean(bool),
    Integer(i32),
    Text(Seq<char>),
}

impl View for SettingValue {
    type V = SettingValueView;

    open spec fn view(&self) -> SettingValueView {
        match self {
            SettingValue::Boolean(b) => SettingValueView::Boolean(*b),
            SettingValue::Integer(i) => SettingValueView::Integer(*i),
            SettingValue::Text(s) => SettingValueView::Text(s@),
        }
    }
}

/// The canonical text of a boolean.
pub open spec fn boolean_text(b: bool) -> Seq<char> {
    if b {
        TRUE_TEXT@
    } else {
        FALSE_TEXT@
    }
}

/// The boolean that `s` denotes: exactly `true` or `false`, nothing else.
pub open spec fn boolean_of_text(s: Seq<char>) -> Option<bool> {
    if s == TRUE_TEXT@ {
        Some(true)
    } else if s == FALSE_TEXT@ {
        Some(false)
    } else {
        None
    }
}

impl SettingValueView {
    /// The kind of key that holds such a value.
    pub open spec fn kind(self) -> KeyKind {
        match self {
            SettingValueView::Boolean(_) => KeyKind::Boolean,
            SettingValueView::Integer(_) => KeyKind::Integer,
            SettingValueView::Text(_) => KeyKind::Text,
        }
    }

    /// The canonical text of the value: `true` or `false`, a decimal
    /// integer, or the text itself.
    pub open spec fn canonical_text(self) -> Seq<char> {
        match self {
            SettingValueView::Boolean(b) => boolean_text(b),
            SettingValueView::Integer(i) => decimal_text(i as int),
            SettingValueView::Text(s) => s,
        }
    }

    /// What a key of the given kind holds before anything was written to it.
    pub open spec fn zero(kind: KeyKind) -> SettingValueView {
        match kind {
            KeyKind::Boolean => SettingValueView::Boolean(false),
            KeyKind::Integer => SettingValueView::Integer(0),
            KeyKind::Text => SettingValueView::Text(Seq::empty()),
        }
    }
}

/// The value of kind `kind` that `text` denotes, or the reason why it
/// denotes none. Every text is a value of kind `Text`.
pub open spec fn value_of_text(kind: KeyKind, text: Seq<char>) -> Result<
    SettingValueView,
    SettingsError,
> {
    match kind {
        KeyKind::Boolean => match boolean_of_text(text) {
            Some(b) => Ok(SettingValueView::Boolean(b)),
            None => Err(SettingsError::InvalidBoolean),
        },
        KeyKind::Integer => match integer_of_text(text) {
            Some(i) => Ok(SettingValueView::Integer(i)),
            None => Err(SettingsError::InvalidInteger),
        },
        KeyKind::Text => Ok(SettingValueView::Text(text)),
    }
}

/// Reads a boolean: `Some` for exactly `true` or `false`.
pub fn parse_boolean(text: &str) -> (value: Option<bool>)
    ensures
        value == boolean_of_text(text@),
{
    if same_text(text, TRUE_TEXT) {
        Some(true)
    } else if same_text(text, FALSE_TEXT) {
        Some(false)
    } else {
        None
    }
}

/// Writes a boolean as `true` or `false`.
pub fn render_boolean(b: bool) -> (text: String)
    ensures
        text@ == boolean_text(b),
{
    if b {
        String::from_str(TRUE_TEXT)
    } else {
        String::from_str(FALSE_TEXT)
    }
}

impl SettingValue {
    /// The kind of key that holds this value.
    pub fn kind(&self) -> (kind: KeyKind)
        ensures
            kind == self@.kind(),
    {
        match self {
            SettingValue::Boolean(_) => KeyKind::Boolean,
            SettingValue::Integer(_) => KeyKind::Integer,
            SettingValue::Text(_) => KeyKind::Text,
        }
    }

    /// What a key of the given kind holds before anything was written to
    /// it: `false`, zero, or the empty text.
    pub fn zero(kind: KeyKind) -> (value: SettingValue)
        ensures
            value@ == SettingValueView::zero(kind),
    {
        match kind {
            KeyKind::Boolean => SettingValue::Boolean(false),
            KeyKind::Integer => SettingValue::Integer(0),
            KeyKind::Text => SettingValue::Text(String::new()),
        }
    }

    /// Reads `text` as a value of the given kind. Fails exactly where the
    /// text is no boolean for a boolean key, or no 32-bit integer for an
    /// integer key.
    pub fn parse(kind: KeyKind, text: &str) -> (value: Result<SettingValue, SettingsError>)
        ensures
            match value_of_text(kind, text@) {
                Ok(v) => value matches Ok(parsed) && parsed@ == v,
                Err(e) => value matches Err(reason) && reason == e,
            },
    {
        match kind {
            KeyKind::Boolean => match parse_boolean(text) {
                Some(b) => Ok(SettingValue::Boolean(b)),
                None => Err(SettingsError::InvalidBoolean),
            },
            KeyKind::Integer => match parse_integer(text) {
                Some(i) => Ok(SettingValue::Integer(i)),
                None => Err(SettingsError::InvalidInteger),
            },
            KeyKind::Text => Ok(SettingValue::Text(String::from_str(text))),
        }
    }

    /// The canonical text of this value.
    pub fn render(&self) -> (text: String)
        ensures
            text@ == self@.canonical_text(),
    {
        match self {
            SettingValue::Boolean(b) => render_boolean(*b),
            SettingValue::Integer(i) => render_integer(*i),
            SettingValue::Text(s) => s.clone(),
        }
    }
}

/// Reading the canonical text of a boolean gives the boolean back.
pub proof fn lemma_boolean_round_trip(b: bool)
    ensures
        boolean_of_text(boolean_text(b)) == Some(b),
{
    reveal_strlit("true");
    reveal_strlit("false");
    assert(TRUE_TEXT@.len() == 4);
    assert(FALSE_TEXT@.len() == 5);
}

/// Reading the canonical text of a value, as a value of its own kind, gives
/// the value back.
pub proof fn lemma_value_round_trip(v: SettingValueView)
    ensures
        value_of_text(v.kind(), v.canonical_text()) == Ok::<SettingValueView, SettingsError>(v),
{
    match v {
        SettingValueView::Boolean(b) => {
            lemma_boolean_round_trip(b);
        },
        SettingValueView::Integer(i) => {
            lemma_integer_round_trip(i);
        },
        SettingValueView::Text(_) => {},
    }
}

} // verus!

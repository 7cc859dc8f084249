//! The settings store: for each call, which backend is asked and what
//! follows from its answer.
//!
//! The store does no input or output of its own. A call on it is a short
//! exchange: the store names the next thing to do, the caller does it and
//! reports how it went, and the store says what follows. A value is kept in
//! the structured backend where there is one, and in a flat file per key
//! where there is none or where the backend refused the write.

use vstd::prelude::*;
use crate::key::{config_file_name, file_name_of, key_kind, kind_of_key, KeyKind};
use crate::value::{value_of_text, SettingValue, SettingValueView, SettingsError};

verus! {

/// A flat file to write: its name inside the configuration directory and
/// what it is to hold.
#[derive(Debug, PartialEq, Eq)]
pub struct FileWrite {
    pub file_name: String,
    pub contents: String,
}

/// The mathematical content of a [`FileWrite`].
pub struct FileWriteView {
    pub file_name: Seq<char>,
    pub contents: Seq<char>,
}

impl View for FileWrite {
    type V = FileWriteView;

    open spec fn view(&self) -> FileWriteView {
        FileWriteView { file_name: self.file_name@, contents: self.contents@ }
    }
}

/// What the caller of `set` is to do next.
#[derive(Debug, PartialEq, Eq)]
pub enum SetAction {
    /// Write the value under the key in the structured backend, with the
    /// accessor of its type, and report whether the backend took it.
    WriteStructured(SettingValue),
    /// Make sure that the configuration directory exists, write the file,
    /// and report whether the write succeeded.
    WriteFile(FileWrite),
}

/// The mathematical content of a [`SetAction`].
pub enum SetActionView {
    WriteStructured(SettingValueView),
    WriteFile(FileWriteView),
}

impl View for SetAction {
    type V = SetActionView;

    open spec fn view(&self) -> SetActionView {
        match self {
            SetAction::WriteStructured(v) => SetActionView::WriteStructured(v@),
            SetAction::WriteFile(f) => SetActionView::WriteFile(f@),
        }
    }
}

/// What the caller of `get` is to do next.
#[derive(Debug, PartialEq, Eq)]
pub enum GetAction {
    /// Read the key from the structured backend with the accessor of the
    /// given kind.
    ReadStructured(KeyKind),
    /// Read the flat file of this name from the configuration directory.
    ReadFile(String),
}

/// The mathematical content of a [`GetAction`].
pub enum GetActionView {
    ReadStructured(KeyKind),
    ReadFile(Seq<char>),
}

impl View for GetAction {
    type V = GetActionView;

    open spec fn view(&self) -> GetActionView {
        match self {
            GetAction::ReadStructured(kind) => GetActionView::ReadStructured(*kind),
            GetAction::ReadFile(name) => GetActionView::ReadFile(name@),
        }
    }
}

/// The flat file that holds `value` for `key`: the value itself, with
/// nothing added.
pub open spec fn file_write_for(key: Seq<char>, value: Seq<char>) -> FileWriteView {
    FileWriteView { file_name: file_name_of(key), contents: value }
}

/// The first step of `set`. With a structured backend the value is read
/// according to the key's kind: a value of the wrong shape ends the call,
/// any other is written to the backend. Without one the value goes to the
/// key's flat file as it is.
pub open spec fn set_plan(backend_present: bool, key: Seq<char>, value: Seq<char>) -> Result<
    SetActionView,
    SettingsError,
> {
    if backend_present {
        match value_of_text(kind_of_key(key), value) {
            Ok(v) => Ok(SetActionView::WriteStructured(v)),
            Err(e) => Err(e),
        }
    } else {
        Ok(SetActionView::WriteFile(file_write_for(key, value)))
    }
}

/// What follows a write to the structured backend: nothing more where the
/// backend took the value, the key's flat file where it refused.
pub open spec fn structured_write_outcome(
    accepted: bool,
    key: Seq<char>,
    value: Seq<char>,
) -> Option<FileWriteView> {
    if accepted {
        None
    } else {
        Some(file_write_for(key, value))
    }
}

/// How `set` ends after the write of a flat file.
pub open spec fn file_write_outcome(written: bool) -> Result<(), SettingsError> {
    if written {
        Ok(())
    } else {
        Err(SettingsError::WriteFailed)
    }
}

/// The first step of `get`: the structured backend where there is one, the
/// key's flat file where there is none.
pub open spec fn get_plan(backend_present: bool, key: Seq<char>) -> GetActionView {
    if backend_present {
        GetActionView::ReadStructured(kind_of_key(key))
    } else {
        GetActionView::ReadFile(file_name_of(key))
    }
}

/// What `get` returns after reading a flat file: the file's contents, or
/// the caller's default where the file could not be read.
pub open spec fn file_read_outcome(contents: Option<Seq<char>>, default: Seq<char>) -> Seq<char> {
    match contents {
        Some(text) => text,
        None => default,
    }
}

/// The settings store. Whether it has a structured backend is fixed when it
/// is made; nothing else is remembered from one call to the next.
#[derive(Debug)]
pub struct SettingsStore {
    backend_present: bool,
}

impl SettingsStore {
    /// Whether the store has a structured backend.
    pub closed spec fn backend(&self) -> bool {
        self.backend_present
    }

    /// A store with a structured backend (`true`) or with flat files only.
    pub fn new(backend_present: bool) -> (store: SettingsStore)
        ensures
            store.backend() == backend_present,
    {
        SettingsStore { backend_present }
    }

    /// Whether the store has a structured backend.
    pub fn has_backend(&self) -> (present: bool)
        ensures
            present == self.backend(),
    {
        self.backend_present
    }

    /// Starts `set(key, value)`: the action to perform, or the error that
    /// ends the call before anything is written. The error comes exactly
    /// where the store has a structured backend and `value` is no value of
    /// the key's kind.
    pub fn begin_set(&self, key: &str, value: &str) -> (step: Result<SetAction, SettingsError>)
        ensures
            match set_plan(self.backend(), key@, value@) {
                Ok(action) => step matches Ok(a) && a@ == action,
                Err(e) => step matches Err(reason) && reason == e,
            },
    {
        if self.backend_present {
            match SettingValue::parse(key_kind(key), value) {
                Ok(parsed) => Ok(SetAction::WriteStructured(parsed)),
                Err(e) => Err(e),
            }
        } else {
            Ok(
                SetAction::WriteFile(
                    FileWrite {
                        file_name: config_file_name(key),
                        contents: String::from_str(value),
                    },
                ),
            )
        }
    }

    /// Continues `set(key, value)` after the write to the structured
    /// backend. `None`: the backend took the value and the call has
    /// succeeded. `Some`: it refused, and for this call the value goes to
    /// the key's flat file instead.
    pub fn after_structured_write(&self, accepted: bool, key: &str, value: &str) -> (fallback:
        Option<FileWrite>)
        ensures
            match structured_write_outcome(accepted, key@, value@) {
                Some(file) => fallback matches Some(f) && f@ == file,
                None => fallback is None,
            },
    {
        if accepted {
            None
        } else {
            Some(FileWrite { file_name: config_file_name(key), contents: String::from_str(value) })
        }
    }

    /// Ends `set` after the write of the flat file: success where the file
    /// was written, `WriteFailed` where it was not.
    pub fn after_file_write(&self, written: bool) -> (outcome: Result<(), SettingsError>)
        ensures
            outcome == file_write_outcome(written),
    {
        if written {
            Ok(())
        } else {
            Err(SettingsError::WriteFailed)
        }
    }

    /// Starts `get(key, default)`: which backend to read, and how.
    pub fn begin_get(&self, key: &str) -> (action: GetAction)
        ensures
            action@ == get_plan(self.backend(), key@),
    {
        if self.backend_present {
            GetAction::ReadStructured(key_kind(key))
        } else {
            GetAction::ReadFile(config_file_name(key))
        }
    }

    /// Ends `get` after a read from the structured backend: the value that
    /// the backend holds, as canonical text.
    pub fn after_structured_read(&self, value: &SettingValue) -> (text: String)
        ensures
            text@ == value@.canonical_text(),
    {
        value.render()
    }

    /// Ends `get(key, default)` after the read of the flat file: the
    /// file's contents, or `default` where the file could not be read.
    pub fn after_file_read(&self, contents: Option<String>, default: &str) -> (text: String)
        ensures
            text@ == file_read_outcome(
                match contents {
                    Some(s) => Some(s@),
                    None => None,
                },
                default@,
            ),
    {
        match contents {
            Some(text) => text,
            None => String::from_str(default),
        }
    }
}

} // verus!

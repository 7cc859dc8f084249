//! Configuration keys: which type of value a key holds, and the flat file
//! that stands for it.

use vstd::prelude::*;
use crate::text::same_text;

verus! {

/// The type of the value that a configuration key holds.
#[derive(Clone, Copy, Debug, PartialEq, Eq, Structural)]
pub enum KeyKind {
    /// `true` or `false`.
    Boolean,
    /// A signed 32-bit integer.
    Integer,
    /// Free-form text.
    Text,
}

/// The key under which the visibility of the navigation panel is kept.
pub const NAVIGATION_PANEL_VISIBLE: &'static str = "navigation-panel-visible";

/// The key under which the position of the pane splitter is kept.
pub const PANED_POSITION: &'static str = "paned-position";

/// The extension of the flat file of a key.
pub const FILE_EXTENSION: &'static str = ".txt";

/// The kind of a key: the two recognised names are typed, every other key
/// holds text.
pub open spec fn kind_of_key(key: Seq<char>) -> KeyKind {
    if key == NAVIGATION_PANEL_VISIBLE@ {
        KeyKind::Boolean
    } else if key == PANED_POSITION@ {
        KeyKind::Integer
    } else {
        KeyKind::Text
    }
}

/// The name of the flat file of a key: the key followed by `.txt`.
pub open spec fn file_name_of(key: Seq<char>) -> Seq<char> {
    key + FILE_EXTENSION@
}

/// The kind of value that `key` holds.
pub fn key_kind(key: &str) -> (kind: KeyKind)
    ensures
        kind == kind_of_key(key@),
{
    if same_text(key, NAVIGATION_PANEL_VISIBLE) {
        KeyKind::Boolean
    } else if same_text(key, PANED_POSITION) {
        KeyKind::Integer
    } else {
        KeyKind::Text
    }
}

/// The name of the flat file that stands for `key` in the configuration
/// directory.
pub fn config_file_name(key: &str) -> (name: String)
    ensures
        name@ == file_name_of(key@),
{
    let mut name = String::from_str(key);
    name.append(FILE_EXTENSION);
    name
}

/// The two recognised keys are typed: the panel's visibility is a boolean,
/// the splitter's position an integer.
pub proof fn lemma_recognised_keys()
    ensures
        kind_of_key(NAVIGATION_PANEL_VISIBLE@) == KeyKind::Boolean,
        kind_of_key(PANED_POSITION@) == KeyKind::Integer,
{
    reveal_strlit("navigation-panel-visible");
    reveal_strlit("paned-position");
    assert(NAVIGATION_PANEL_VISIBLE@.len() == 24);
    assert(PANED_POSITION@.len() == 14);
}

/// Two keys with the same flat file are the same key.
pub proof fn lemma_file_name_names_one_key(a: Seq<char>, b: Seq<char>)
    requires
        file_name_of(a) == file_name_of(b),
    ensures
        a == b,
{
    let ext = FILE_EXTENSION@;
    assert(file_name_of(a).len() == a.len() + ext.len());
    assert(file_name_of(b).len() == b.len() + ext.len());
    assert forall|i: int| 0 <= i < a.len() implies a[i] == b[i] by {
        assert(file_name_of(a)[i] == a[i]);
        assert(file_name_of(b)[i] == b[i]);
    }
    assert(a =~= b);
}

} // verus!

//! What the store's exchanges add up to.
//!
//! [`World`] is a mathematical model of the two backends. [`World::set`] and
//! [`World::get`] play a whole call against it: they follow the store's
//! steps and let the world answer each one. The lemmas below say what
//! callers of the store can rely on, for every world.

use vstd::prelude::*;
use crate::key::{file_name_of, kind_of_key, lemma_file_name_names_one_key, KeyKind};
use crate::store::{
    file_read_outcome, file_write_outcome, get_plan, set_plan, structured_write_outcome,
    FileWriteView, GetActionView, SetActionView,
};
use crate::value::{lemma_value_round_trip, value_of_text, SettingValueView, SettingsError};

verus! {

/// The state of the two backends.
pub struct World {
    /// What the structured backend holds, by key.
    pub stored: Map<Seq<char>, SettingValueView>,
    /// The keys for which the structured backend refuses every write.
    pub refused: Set<Seq<char>>,
    /// The flat files in the configuration directory, by name.
    pub files: Map<Seq<char>, Seq<char>>,
    /// The names of the flat files that cannot be written.
    pub unwritable: Set<Seq<char>>,
}

impl World {
    /// What the structured backend answers to a typed read: the value
    /// stored under the key where there is one of the kind asked for, the
    /// zero value of that kind otherwise.
    pub open spec fn read_structured(self, key: Seq<char>, kind: KeyKind) -> SettingValueView {
        if self.stored.dom().contains(key) && self.stored[key].kind() == kind {
            self.stored[key]
        } else {
            SettingValueView::zero(kind)
        }
    }

    /// A typed write to the structured backend: the world after it, and
    /// whether the backend took the value.
    pub open spec fn write_structured(self, key: Seq<char>, value: SettingValueView) -> (
        World,
        bool,
    ) {
        if self.refused.contains(key) {
            (self, false)
        } else {
            (World { stored: self.stored.insert(key, value), ..self }, true)
        }
    }

    /// The contents of a flat file, if it can be read.
    pub open spec fn read_file(self, name: Seq<char>) -> Option<Seq<char>> {
        if self.files.dom().contains(name) {
            Some(self.files[name])
        } else {
            None
        }
    }

    /// The write of a flat file: the world after it, and whether the file
    /// was written.
    pub open spec fn write_file(self, file: FileWriteView) -> (World, bool) {
        if self.unwritable.contains(file.file_name) {
            (self, false)
        } else {
            (World { files: self.files.insert(file.file_name, file.contents), ..self }, true)
        }
    }

    /// The end of `set` from the write of a flat file on.
    pub open spec fn set_by_file(self, file: FileWriteView) -> (World, Result<(), SettingsError>) {
        let (after, written) = self.write_file(file);
        (after, file_write_outcome(written))
    }

    /// A whole `set(key, value)`: the world after the call and what the
    /// call returns.
    pub open spec fn set(self, backend_present: bool, key: Seq<char>, value: Seq<char>) -> (
        World,
        Result<(), SettingsError>,
    ) {
        match set_plan(backend_present, key, value) {
            Err(e) => (self, Err(e)),
            Ok(SetActionView::WriteFile(file)) => self.set_by_file(file),
            Ok(SetActionView::WriteStructured(typed)) => {
                let (after, accepted) = self.write_structured(key, typed);
                match structured_write_outcome(accepted, key, value) {
                    None => (after, Ok(())),
                    Some(file) => after.set_by_file(file),
                }
            },
        }
    }

    /// A whole `get(key, default)`: what the call returns. It changes
    /// nothing.
    pub open spec fn get(self, backend_present: bool, key: Seq<char>, default: Seq<char>) -> Seq<
        char,
    > {
        match get_plan(backend_present, key) {
            GetActionView::ReadStructured(kind) => self.read_structured(key, kind).canonical_text(),
            GetActionView::ReadFile(name) => file_read_outcome(self.read_file(name), default),
        }
    }
}

/// What `set` returns. With a structured backend, a value that is none of
/// the key's kind fails with the reason. Otherwise the call succeeds where
/// the value is written, to the backend or to a flat file, and fails with
/// `WriteFailed` where the backend is absent or refuses and the file
/// cannot be written.
pub proof fn lemma_set_outcome(
    world: World,
    backend_present: bool,
    key: Seq<char>,
    value: Seq<char>,
)
    ensures
        world.set(backend_present, key, value).1 == (if backend_present && value_of_text(
            kind_of_key(key),
            value,
        ) is Err {
            Err::<(), SettingsError>(value_of_text(kind_of_key(key), value)->Err_0)
        } else if backend_present && !world.refused.contains(key) {
            Ok(())
        } else if world.unwritable.contains(file_name_of(key)) {
            Err(SettingsError::WriteFailed)
        } else {
            Ok(())
        }),
{
}

/// After a `set` that succeeded, `get` on the same key returns what was
/// set: the canonical text of the value where the structured backend took
/// it, the text as given where it went to the flat file. The default
/// plays no part.
///
/// This holds unless the store has a structured backend that refuses the
/// key: the value is then in the flat file, and `get` still asks the
/// backend.
pub proof fn lemma_get_after_set(
    world: World,
    backend_present: bool,
    key: Seq<char>,
    value: Seq<char>,
    default: Seq<char>,
)
    requires
        !(backend_present && world.refused.contains(key)),
        world.set(backend_present, key, value).1 is Ok,
    ensures
        world.set(backend_present, key, value).0.get(backend_present, key, default) == (
        if backend_present {
            value_of_text(kind_of_key(key), value)->Ok_0.canonical_text()
        } else {
            value
        }),
{
    let after = world.set(backend_present, key, value).0;
    if backend_present {
        let typed = value_of_text(kind_of_key(key), value)->Ok_0;
        assert(after.stored.dom().contains(key));
        assert(after.stored[key] == typed);
        assert(typed.kind() == kind_of_key(key));
    } else {
        assert(after.files.dom().contains(file_name_of(key)));
    }
}

/// For every key and every value of the key's kind: after a `set` of the
/// value's canonical text that succeeded, `get` returns that same text,
/// whichever backend served the two calls.
///
/// This holds unless the store has a structured backend that refuses the
/// key.
pub proof fn lemma_set_then_get_round_trip(
    world: World,
    backend_present: bool,
    key: Seq<char>,
    value: SettingValueView,
    default: Seq<char>,
)
    requires
        value.kind() == kind_of_key(key),
        !(backend_present && world.refused.contains(key)),
        world.set(backend_present, key, value.canonical_text()).1 is Ok,
    ensures
        world.set(backend_present, key, value.canonical_text()).0.get(
            backend_present,
            key,
            default,
        ) == value.canonical_text(),
{
    lemma_value_round_trip(value);
    lemma_get_after_set(world, backend_present, key, value.canonical_text(), default);
}

/// Where the structured backend refuses the key, `set` writes the flat
/// file instead and succeeds, provided the value is one of the key's kind
/// and the file can be written. The backend's contents stay as they were,
/// and a store without a structured backend then reads the value back as
/// it was given.
pub proof fn lemma_refused_write_falls_back_to_file(
    world: World,
    key: Seq<char>,
    value: Seq<char>,
    default: Seq<char>,
)
    requires
        world.refused.contains(key),
        value_of_text(kind_of_key(key), value) is Ok,
        !world.unwritable.contains(file_name_of(key)),
    ensures
        world.set(true, key, value).1 is Ok,
        world.set(true, key, value).0.stored == world.stored,
        world.set(true, key, value).0.read_file(file_name_of(key)) == Some(value),
        world.set(true, key, value).0.get(false, key, default) == value,
{
    let after = world.set(true, key, value).0;
    assert(after.files.dom().contains(file_name_of(key)));
}

/// Without a structured backend, `get` on a key whose flat file does not
/// exist returns the caller's default, whatever it is.
pub proof fn lemma_get_without_file_returns_default(
    world: World,
    key: Seq<char>,
    default: Seq<char>,
)
    requires
        !world.files.dom().contains(file_name_of(key)),
    ensures
        world.get(false, key, default) == default,
{
}

/// With a structured backend, a value that is none of the key's kind makes
/// `set` fail with the reason, and nothing is written: neither backend
/// changes, and no flat file is created or modified.
pub proof fn lemma_invalid_value_writes_nothing(world: World, key: Seq<char>, value: Seq<char>)
    requires
        value_of_text(kind_of_key(key), value) is Err,
    ensures
        world.set(true, key, value).0 == world,
        world.set(true, key, value).1 == Err::<(), SettingsError>(
            value_of_text(kind_of_key(key), value)->Err_0,
        ),
{
}

/// A second `set` of the same value leaves the world as the first one left
/// it and returns what the first one returned.
pub proof fn lemma_set_is_idempotent(
    world: World,
    backend_present: bool,
    key: Seq<char>,
    value: Seq<char>,
)
    ensures
        world.set(backend_present, key, value).0.set(backend_present, key, value)
            == world.set(backend_present, key, value),
{
    let first = world.set(backend_present, key, value);
    let second = first.0.set(backend_present, key, value);
    assert(first.0.refused == world.refused);
    assert(first.0.unwritable == world.unwritable);
    assert(second.0.stored =~= first.0.stored);
    assert(second.0.files =~= first.0.files);
    assert(second.1 == first.1);
}

/// Every `set` is served by one backend: it changes the structured backend
/// or the flat files, never both, and where it fails it changes neither.
/// What it changes is the entry of its own key, and nothing else.
pub proof fn lemma_set_is_served_by_one_backend(
    world: World,
    backend_present: bool,
    key: Seq<char>,
    value: Seq<char>,
)
    ensures
        ({
            let (after, outcome) = world.set(backend_present, key, value);
            &&& after.refused == world.refused
            &&& after.unwritable == world.unwritable
            &&& after.stored == world.stored || after.files == world.files
            &&& outcome is Err ==> after == world
            &&& after.stored != world.stored ==> backend_present && after.stored
                == world.stored.insert(key, value_of_text(kind_of_key(key), value)->Ok_0)
            &&& after.files != world.files ==> after.files == world.files.insert(
                file_name_of(key),
                value,
            )
        }),
{
}

/// A `set` on one key leaves what `get` returns for every other key as it
/// was.
pub proof fn lemma_set_leaves_other_keys(
    world: World,
    backend_present: bool,
    key: Seq<char>,
    value: Seq<char>,
    other: Seq<char>,
    default: Seq<char>,
)
    requires
        other != key,
    ensures
        world.set(backend_present, key, value).0.get(backend_present, other, default)
            == world.get(backend_present, other, default),
{
    if file_name_of(other) == file_name_of(key) {
        lemma_file_name_names_one_key(other, key);
    }
}

/// The fallback lasts for one call: after a `set` that the structured
/// backend refused, a `set` on a key that it takes is written to the
/// backend, not to a flat file.
pub proof fn lemma_fallback_lasts_one_call(
    world: World,
    refused_key: Seq<char>,
    refused_value: Seq<char>,
    key: Seq<char>,
    value: Seq<char>,
)
    requires
        world.refused.contains(refused_key),
        !world.refused.contains(key),
        value_of_text(kind_of_key(key), value) is Ok,
    ensures
        ({
            let between = world.set(true, refused_key, refused_value).0;
            let (after, outcome) = between.set(true, key, value);
            &&& outcome is Ok
            &&& after.files == between.files
            &&& after.stored == between.stored.insert(
                key,
                value_of_text(kind_of_key(key), value)->Ok_0,
            )
        }),
{
}

} // verus!

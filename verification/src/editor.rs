//! The state that a custom text view keeps beside its widgets, and the
//! decisions it takes on each event: what to save and when, how the
//! navigation panel is laid out, what the counters show.
//!
//! Nothing here touches a widget. The caller hands in what it read from
//! the widgets and the settings, and applies what comes back.

use vstd::prelude::*;
use crate::counts::{is_blank, lemma_blank_means_no_words, text_is_blank, words_in};
use crate::decimal::{
    decimal_digits, decimal_text, integer_of_text, lemma_integer_round_trip, parse_integer,
    render_count, render_integer,
};
use crate::key::{lemma_recognised_keys, NAVIGATION_PANEL_VISIBLE, PANED_POSITION};
use crate::store::{set_plan, SetActionView, SettingsStore};
use crate::value::{
    boolean_of_text, boolean_text, lemma_boolean_round_trip, parse_boolean, render_boolean,
    SettingValueView, SettingsError, FALSE_TEXT,
};

verus! {

/// Where the pane splitter stands until a position is loaded or chosen.
pub const DEFAULT_PANED_POSITION: i32 = 250;

/// The default handed to the settings store when the splitter position is
/// read: the text of [`DEFAULT_PANED_POSITION`].
pub const DEFAULT_PANED_POSITION_TEXT: &'static str = "250";

/// How long the panel stays attached after it was told to hide, so that the
/// slide-out can be seen, in milliseconds.
pub const HIDE_DELAY_MS: u64 = 200;

/// The toggle's icon while the panel is shown.
pub const SHOWN_ICON: &'static str = "sidebar-show-symbolic-rtl";

/// The toggle's icon while the panel is hidden.
pub const HIDDEN_ICON: &'static str = "view-dual-symbolic";

/// The toggle's tooltip while the panel is shown.
pub const SHOWN_TOOLTIP: &'static str = "Hide Navigation Panel";

/// The toggle's tooltip while the panel is hidden.
pub const HIDDEN_TOOLTIP: &'static str = "Show Navigation Panel";

/// What goes before the number in the character counter.
pub const CHARACTERS_PREFIX: &'static str = "Characters: ";

/// What goes before the number in the word counter.
pub const WORDS_PREFIX: &'static str = "Words: ";

/// The state of a custom text view that is not held by a widget.
#[derive(Debug)]
pub struct CustomTextView {
    store: SettingsStore,
    settings_key: Option<String>,
    auto_save: bool,
    is_loading: bool,
    nav_visible: bool,
    paned_position: i32,
}

/// The mathematical content of a [`CustomTextView`].
pub struct ViewState {
    /// Whether the settings store has a structured backend.
    pub backend_present: bool,
    /// The key under which the text is saved, once one is configured.
    pub settings_key: Option<Seq<char>>,
    /// Whether the text is saved on every change.
    pub auto_save: bool,
    /// Whether the text is being loaded, so that the change it causes must
    /// not be saved.
    pub is_loading: bool,
    /// Whether the navigation panel is shown.
    pub nav_visible: bool,
    /// The splitter position to restore when the panel is shown again.
    pub paned_position: i32,
}

impl View for CustomTextView {
    type V = ViewState;

    closed spec fn view(&self) -> ViewState {
        ViewState {
            backend_present: self.store.backend(),
            settings_key: match self.settings_key {
                Some(key) => Some(key@),
                None => None,
            },
            auto_save: self.auto_save,
            is_loading: self.is_loading,
            nav_visible: self.nav_visible,
            paned_position: self.paned_position,
        }
    }
}

/// What is to happen to the text when a save is asked for.
#[derive(Debug, PartialEq, Eq)]
pub enum SaveRequest {
    /// The text is being loaded: nothing is saved.
    Loading,
    /// No settings key is configured: nothing can be saved.
    NoKey,
    /// Set `value` under `key` in the settings store.
    Write { key: String, value: String },
}

/// The mathematical content of a [`SaveRequest`].
pub enum SaveRequestView {
    Loading,
    NoKey,
    Write { key: Seq<char>, value: Seq<char> },
}

impl View for SaveRequest {
    type V = SaveRequestView;

    open spec fn view(&self) -> SaveRequestView {
        match self {
            SaveRequest::Loading => SaveRequestView::Loading,
            SaveRequest::NoKey => SaveRequestView::NoKey,
            SaveRequest::Write { key, value } => SaveRequestView::Write {
                key: key@,
                value: value@,
            },
        }
    }
}

/// How the navigation panel and its toggle are to look.
#[derive(Debug, PartialEq, Eq)]
pub struct PanelLayout {
    /// Whether the panel is revealed and the toggle pressed.
    pub visible: bool,
    /// The icon of the toggle.
    pub icon_name: &'static str,
    /// The tooltip of the toggle.
    pub tooltip: &'static str,
    /// The position to move the splitter to, if it is to move.
    pub position: Option<i32>,
    /// After how many milliseconds the hidden panel is to be detached, if
    /// it is.
    pub detach_after_ms: Option<u64>,
}

/// The navigation state as the settings store keeps it.
#[derive(Debug, PartialEq, Eq)]
pub struct NavigationRecord {
    /// The value for the key `navigation-panel-visible`.
    pub visible: String,
    /// The value for the key `paned-position`.
    pub position: String,
}

/// What follows a click on the navigation toggle.
#[derive(Debug, PartialEq, Eq)]
pub struct ToggleOutcome {
    /// How the panel is to look now.
    pub layout: PanelLayout,
    /// What is to be set in the settings store.
    pub record: NavigationRecord,
}

/// What is to be written when the view goes away.
#[derive(Debug, PartialEq, Eq)]
pub struct DisposeOutcome {
    /// What is to happen to the text; `None` where auto-save is off.
    pub save: Option<SaveRequest>,
    /// The navigation state to set in the settings store.
    pub record: NavigationRecord,
}

/// What the counters and the placeholder show for a text.
#[derive(Debug, PartialEq, Eq)]
pub struct Counts {
    /// The number of characters.
    pub characters: usize,
    /// The number of words.
    pub words: usize,
    /// The text of the character counter.
    pub characters_label: String,
    /// The text of the word counter.
    pub words_label: String,
    /// Whether the placeholder is shown: the text is blank.
    pub placeholder_visible: bool,
}

/// The toggle's icon for a panel that is shown or hidden.
pub open spec fn icon_for(visible: bool) -> Seq<char> {
    if visible {
        SHOWN_ICON@
    } else {
        HIDDEN_ICON@
    }
}

/// The toggle's tooltip for a panel that is shown or hidden.
pub open spec fn tooltip_for(visible: bool) -> Seq<char> {
    if visible {
        SHOWN_TOOLTIP@
    } else {
        HIDDEN_TOOLTIP@
    }
}

/// The state of a new view.
pub open spec fn initial_state(backend_present: bool) -> ViewState {
    ViewState {
        backend_present,
        settings_key: None,
        auto_save: false,
        is_loading: false,
        nav_visible: false,
        paned_position: DEFAULT_PANED_POSITION,
    }
}

/// What a save does in a given state: nothing while loading, nothing
/// without a key, else a write of the text under the key.
pub open spec fn save_request_in(state: ViewState, text: Seq<char>) -> SaveRequestView {
    if state.is_loading {
        SaveRequestView::Loading
    } else {
        match state.settings_key {
            Some(key) => SaveRequestView::Write { key, value: text },
            None => SaveRequestView::NoKey,
        }
    }
}

/// Whether a change of the text is saved of itself: auto-save is on and a
/// key is configured.
pub open spec fn saves_on_change(state: ViewState) -> bool {
    state.auto_save && state.settings_key is Some
}

/// The visibility that a loaded text stands for: `false` unless it is
/// `true`.
pub open spec fn loaded_visibility(text: Seq<char>) -> bool {
    match boolean_of_text(text) {
        Some(visible) => visible,
        None => false,
    }
}

/// The splitter position that a loaded text stands for: the default where
/// the text is no 32-bit integer.
pub open spec fn loaded_position(text: Seq<char>) -> i32 {
    match integer_of_text(text) {
        Some(position) => position,
        None => DEFAULT_PANED_POSITION,
    }
}

/// The state after a click on the toggle. Showing the panel keeps the
/// remembered position; hiding it remembers where the splitter stands.
pub open spec fn state_after_toggle(state: ViewState, is_active: bool, current_position: i32)
    -> ViewState {
    ViewState {
        nav_visible: is_active,
        paned_position: if is_active {
            state.paned_position
        } else {
            current_position
        },
        ..state
    }
}

/// The state after the navigation state was loaded. A position that is not
/// positive is ignored.
pub open spec fn state_after_navigation_load(
    state: ViewState,
    visible_text: Seq<char>,
    position_text: Seq<char>,
) -> ViewState {
    ViewState {
        nav_visible: loaded_visibility(visible_text),
        paned_position: if loaded_position(position_text) > 0 {
            loaded_position(position_text)
        } else {
            state.paned_position
        },
        ..state
    }
}

impl PanelLayout {
    /// Whether the layout is the one for the given visibility, splitter
    /// move and detach delay.
    pub open spec fn is_for(self, visible: bool, position: Option<i32>, detach_after_ms: Option<u64>)
        -> bool {
        &&& self.visible == visible
        &&& self.icon_name@ == icon_for(visible)
        &&& self.tooltip@ == tooltip_for(visible)
        &&& self.position == position
        &&& self.detach_after_ms == detach_after_ms
    }
}

impl NavigationRecord {
    /// Whether the record holds the canonical texts of the given state.
    pub open spec fn holds(self, state: ViewState) -> bool {
        &&& self.visible@ == boolean_text(state.nav_visible)
        &&& self.position@ == decimal_text(state.paned_position as int)
    }
}

impl CustomTextView {
    /// A new view: no settings key, auto-save off, the panel hidden, the
    /// splitter at its default position.
    pub fn new(backend_present: bool) -> (view: CustomTextView)
        ensures
            view@ == initial_state(backend_present),
    {
        CustomTextView {
            store: SettingsStore::new(backend_present),
            settings_key: None,
            auto_save: false,
            is_loading: false,
            nav_visible: false,
            paned_position: DEFAULT_PANED_POSITION,
        }
    }

    /// A new view that saves its text under `key` on every change.
    pub fn with_settings_key(backend_present: bool, key: &str) -> (view: CustomTextView)
        ensures
            view@ == (ViewState {
                settings_key: Some(key@),
                auto_save: true,
                ..initial_state(backend_present)
            }),
    {
        let mut view = CustomTextView::new(backend_present);
        view.set_settings_key(key);
        view.set_auto_save(true);
        view
    }

    /// The settings store of this view.
    pub fn store(&self) -> (store: &SettingsStore)
        ensures
            store.backend() == self@.backend_present,
    {
        &self.store
    }

    /// Whether the text is being loaded.
    pub fn is_loading(&self) -> (loading: bool)
        ensures
            loading == self@.is_loading,
    {
        self.is_loading
    }

    /// Whether the navigation panel is shown.
    pub fn nav_visible(&self) -> (visible: bool)
        ensures
            visible == self@.nav_visible,
    {
        self.nav_visible
    }

    /// The splitter position that is restored when the panel is shown.
    pub fn paned_position(&self) -> (position: i32)
        ensures
            position == self@.paned_position,
    {
        self.paned_position
    }

    /// Configures the key under which the text is saved and loaded. The
    /// caller loads the text next, with [`Self::load_from_settings`].
    pub fn set_settings_key(&mut self, key: &str)
        ensures
            final(self)@ == (ViewState { settings_key: Some(key@), ..old(self)@ }),
    {
        self.settings_key = Some(String::from_str(key));
    }

    /// Turns saving on every change on or off.
    pub fn set_auto_save(&mut self, auto_save: bool)
        ensures
            final(self)@ == (ViewState { auto_save, ..old(self)@ }),
    {
        self.auto_save = auto_save;
    }

    /// What a save of `text` comes to: nothing while the text is being
    /// loaded, nothing without a settings key, else a write of `text` under
    /// the key.
    pub fn save_to_settings(&self, text: &str) -> (request: SaveRequest)
        ensures
            request@ == save_request_in(self@, text@),
    {
        if self.is_loading {
            SaveRequest::Loading
        } else {
            match &self.settings_key {
                Some(key) => SaveRequest::Write {
                    key: key.clone(),
                    value: String::from_str(text),
                },
                None => SaveRequest::NoKey,
            }
        }
    }

    /// What a change of the text to `text` comes to: a save where auto-save
    /// is on and a key is configured, nothing otherwise.
    pub fn on_text_changed(&self, text: &str) -> (request: Option<SaveRequest>)
        ensures
            saves_on_change(self@) ==> (request matches Some(r) && r@ == save_request_in(
                self@,
                text@,
            )),
            !saves_on_change(self@) ==> request is None,
    {
        if self.auto_save && self.settings_key.is_some() {
            Some(self.save_to_settings(text))
        } else {
            None
        }
    }

    /// Starts loading the text: the key to get from the settings store
    /// (with the empty text as default), or `None` where no key is
    /// configured. Until [`Self::finish_loading`] nothing is saved.
    pub fn load_from_settings(&mut self) -> (key: Option<String>)
        ensures
            match old(self)@.settings_key {
                Some(k) => key matches Some(found) && found@ == k && final(self)@ == (ViewState {
                    is_loading: true,
                    ..old(self)@
                }),
                None => key is None && final(self)@ == old(self)@,
            },
    {
        match &self.settings_key {
            Some(key) => {
                let found = key.clone();
                self.is_loading = true;
                Some(found)
            },
            None => None,
        }
    }

    /// Ends loading the text: saves are possible again.
    pub fn finish_loading(&mut self)
        ensures
            final(self)@ == (ViewState { is_loading: false, ..old(self)@ }),
    {
        self.is_loading = false;
    }

    /// The navigation state as it is to be set in the settings store.
    pub fn navigation_record(&self) -> (record: NavigationRecord)
        ensures
            record.holds(self@),
    {
        NavigationRecord {
            visible: render_boolean(self.nav_visible),
            position: render_integer(self.paned_position),
        }
    }

    /// A click on the navigation toggle, which is now pressed
    /// (`is_active`) or released, while the splitter stands at
    /// `current_position`.
    ///
    /// Pressed: the panel is shown and the splitter moves to the remembered
    /// position. Released: the splitter's position is remembered, the panel
    /// is hidden and detached after [`HIDE_DELAY_MS`]. Either way the new
    /// state is to be set in the settings store.
    pub fn on_nav_toggle_clicked(&mut self, is_active: bool, current_position: i32) -> (outcome:
        ToggleOutcome)
        ensures
            final(self)@ == state_after_toggle(old(self)@, is_active, current_position),
            is_active ==> outcome.layout.is_for(true, Some(old(self)@.paned_position), None),
            !is_active ==> outcome.layout.is_for(false, None, Some(HIDE_DELAY_MS)),
            outcome.record.holds(final(self)@),
    {
        self.nav_visible = is_active;
        let layout = if is_active {
            PanelLayout {
                visible: true,
                icon_name: SHOWN_ICON,
                tooltip: SHOWN_TOOLTIP,
                position: Some(self.paned_position),
                detach_after_ms: None,
            }
        } else {
            self.paned_position = current_position;
            PanelLayout {
                visible: false,
                icon_name: HIDDEN_ICON,
                tooltip: HIDDEN_TOOLTIP,
                position: None,
                detach_after_ms: Some(HIDE_DELAY_MS),
            }
        };
        ToggleOutcome { layout, record: self.navigation_record() }
    }

    /// Takes over the navigation state that was read from the settings
    /// store: `visible_text` for the key `navigation-panel-visible`,
    /// `position_text` for the key `paned-position`.
    ///
    /// The panel is shown only where `visible_text` is `true`. A position
    /// is remembered where `position_text` is a positive integer (the
    /// default counts where it is no integer), and the splitter moves to it
    /// where the panel is shown.
    pub fn load_navigation_state(&mut self, visible_text: &str, position_text: &str) -> (layout:
        PanelLayout)
        ensures
            final(self)@ == state_after_navigation_load(old(self)@, visible_text@, position_text@),
            layout.is_for(
                loaded_visibility(visible_text@),
                if loaded_visibility(visible_text@) && loaded_position(position_text@) > 0 {
                    Some(loaded_position(position_text@))
                } else {
                    None
                },
                None,
            ),
    {
        let visible: bool = match parse_boolean(visible_text) {
            Some(visible) => visible,
            None => false,
        };
        let saved: i32 = match parse_integer(position_text) {
            Some(position) => position,
            None => DEFAULT_PANED_POSITION,
        };
        self.nav_visible = visible;
        let mut position: Option<i32> = None;
        if saved > 0 {
            self.paned_position = saved;
            if visible {
                position = Some(saved);
            }
        }
        if visible {
            PanelLayout {
                visible: true,
                icon_name: SHOWN_ICON,
                tooltip: SHOWN_TOOLTIP,
                position,
                detach_after_ms: None,
            }
        } else {
            PanelLayout {
                visible: false,
                icon_name: HIDDEN_ICON,
                tooltip: HIDDEN_TOOLTIP,
                position,
                detach_after_ms: None,
            }
        }
    }

    /// What is to be written when the view goes away, while it shows
    /// `text`: the text where auto-save is on, and the navigation state.
    pub fn dispose(&self, text: &str) -> (outcome: DisposeOutcome)
        ensures
            self@.auto_save ==> (outcome.save matches Some(r) && r@ == save_request_in(
                self@,
                text@,
            )),
            !self@.auto_save ==> outcome.save is None,
            outcome.record.holds(self@),
    {
        let save = if self.auto_save {
            Some(self.save_to_settings(text))
        } else {
            None
        };
        DisposeOutcome { save, record: self.navigation_record() }
    }

    /// What the counters and the placeholder show for `text`.
    pub fn update_counts(text: &str) -> (counts: Counts)
        ensures
            counts.characters == text@.len(),
            counts.words == words_in(text@),
            counts.characters_label@ == CHARACTERS_PREFIX@ + decimal_digits(text@.len()),
            counts.words_label@ == WORDS_PREFIX@ + decimal_digits(words_in(text@)),
            counts.placeholder_visible == is_blank(text@),
            counts.placeholder_visible == (counts.words == 0),
    {
        proof {
            lemma_blank_means_no_words(text@);
        }
        let characters: usize = CustomTextView::char_count(text);
        let words: usize = CustomTextView::word_count(text);
        let mut characters_label = String::from_str(CHARACTERS_PREFIX);
        characters_label.append(render_count(characters).as_str());
        let mut words_label = String::from_str(WORDS_PREFIX);
        words_label.append(render_count(words).as_str());
        Counts {
            characters,
            words,
            characters_label,
            words_label,
            placeholder_visible: text_is_blank(text),
        }
    }
}

/// The navigation state that a view puts into its record is taken by a
/// store with a structured backend: the two texts are values of their
/// keys' kinds, so that no `set` of them fails on the value.
pub proof fn lemma_navigation_record_is_well_typed(state: ViewState)
    ensures
        set_plan(true, NAVIGATION_PANEL_VISIBLE@, boolean_text(state.nav_visible)) == Ok::<
            SetActionView,
            SettingsError,
        >(SetActionView::WriteStructured(SettingValueView::Boolean(state.nav_visible))),
        set_plan(true, PANED_POSITION@, decimal_text(state.paned_position as int)) == Ok::<
            SetActionView,
            SettingsError,
        >(SetActionView::WriteStructured(SettingValueView::Integer(state.paned_position))),
{
    lemma_recognised_keys();
    lemma_boolean_round_trip(state.nav_visible);
    lemma_integer_round_trip(state.paned_position);
}

/// Loading the record of a state gives the navigation state back: the
/// visibility always, the position where it is positive. Any other
/// position is not taken over, and the view keeps the one it had.
pub proof fn lemma_navigation_record_loads_back(saved: ViewState, view: ViewState)
    ensures
        ({
            let loaded = state_after_navigation_load(
                view,
                boolean_text(saved.nav_visible),
                decimal_text(saved.paned_position as int),
            );
            &&& loaded.nav_visible == saved.nav_visible
            &&& loaded.paned_position == (if saved.paned_position > 0 {
                saved.paned_position
            } else {
                view.paned_position
            })
        }),
{
    lemma_boolean_round_trip(saved.nav_visible);
    lemma_integer_round_trip(saved.paned_position);
}

/// Loading the defaults, which is what a store without anything written
/// hands out, leaves a new view as it is.
pub proof fn lemma_defaults_load_the_initial_state(backend_present: bool)
    ensures
        state_after_navigation_load(
            initial_state(backend_present),
            FALSE_TEXT@,
            DEFAULT_PANED_POSITION_TEXT@,
        ) == initial_state(backend_present),
{
    reveal_strlit("250");
    lemma_boolean_round_trip(false);
    lemma_integer_round_trip(250);
    assert(decimal_digits(2) =~= seq!['2']);
    assert(decimal_digits(25) =~= seq!['2', '5']);
    assert(decimal_digits(250) =~= seq!['2', '5', '0']);
    assert(DEFAULT_PANED_POSITION_TEXT@ =~= decimal_text(250));
}

} // verus!

//! The input state machine: raw key presses become edits of the search
//! query, mode switches between navigation and searching (when the modal
//! scheme is enabled), selection movement, and the terminal commit of the
//! selected entry.

use vstd::prelude::*;

verus! {

/// Whether a character counts as alphanumeric for query editing, as the
/// standard library's Unicode classification has it. The answer depends
/// on the character alone.
pub uninterp spec fn is_alphanumeric_char(c: char) -> bool;

/// Relies on char::is_alphanumeric: the Unicode alphanumeric
/// classification of a single character.
#[verifier::external_body]
fn char_is_alphanumeric(c: char) -> (r: bool)
    ensures
        r == is_alphanumeric_char(c),
{
    c.is_alphanumeric()
}

/// Relies on String::push: appends one character at the end.
#[verifier::external_body]
fn push_char(s: &mut String, c: char)
    ensures
        final(s)@ == old(s)@.push(c),
{
    s.push(c)
}

/// Relies on String::pop: removes and returns the last character, or
/// leaves an empty string alone.
#[verifier::external_body]
fn pop_char(s: &mut String) -> (r: Option<char>)
    ensures
        old(s)@.len() == 0 ==> r is None && final(s)@ == old(s)@,
        old(s)@.len() > 0 ==> r == Some(old(s)@.last()) && final(s)@ == old(s)@.drop_last(),
{
    s.pop()
}

/// A key press, as the embedding reports it: the commit key, the two
/// editing keys, a character key with its character, or anything else.
#[derive(Clone, Copy, PartialEq, Eq, Debug)]
pub enum Key {
    Enter,
    Backspace,
    Escape,
    Char(char),
    Other,
}

/// Whether the modal scheme is reading keys as navigation or as query
/// edits.
#[derive(Clone, Copy, PartialEq, Eq, Debug)]
pub enum Mode {
    Normal,
    Searching,
}

/// One grid step of the selection.
#[derive(Clone, Copy, PartialEq, Eq, Debug)]
pub enum Direction {
    Left,
    Down,
    Up,
    Right,
}

/// What a navigation key asks of the grid: select the first entry when
/// nothing is selected yet, else move the selection one step.
#[derive(Clone, Copy, PartialEq, Eq, Debug)]
pub enum NavAction {
    SelectFirst,
    Move(Direction),
}

/// What the embedding must do after one key press.
#[derive(Clone, Copy, PartialEq, Eq, Debug)]
pub struct KeyOutcome {
    /// The key was consumed; an unconsumed key propagates to the grid's
    /// default handling.
    pub consumed: bool,
    /// Emit the selected entry's path as the program's result and
    /// terminate successfully.
    pub commit: bool,
    /// The query changed: re-evaluate visibility over all entries.
    pub refilter: bool,
    /// Move the selection, or select the first entry.
    pub nav: Option<NavAction>,
    /// Return keyboard focus to the selected entry, or to the grid when
    /// none is selected.
    pub restore_focus: bool,
}

/// The ghost image of the input state: the flag choosing the scheme, the
/// mode, and the query's characters.
#[verifier::ext_equal]
pub struct StateModel {
    pub vi_mode: bool,
    pub mode: Mode,
    pub query: Seq<char>,
}

/// The input state: which scheme is active, the current mode (only read
/// under the modal scheme), and the live search query.
pub struct InputState {
    pub vi_mode: bool,
    pub mode: Mode,
    pub query: String,
}

impl View for InputState {
    type V = StateModel;

    open spec fn view(&self) -> StateModel {
        StateModel { vi_mode: self.vi_mode, mode: self.mode, query: self.query@ }
    }
}

/// A character the query editor accepts: alphanumeric or one of `-`,
/// `_`, `.`.
pub open spec fn edit_accepts(c: char) -> bool {
    is_alphanumeric_char(c) || c == '-' || c == '_' || c == '.'
}

/// An outcome that only consumes (or passes on) the key.
pub open spec fn quiet_outcome(consumed: bool) -> KeyOutcome {
    KeyOutcome { consumed, commit: false, refilter: false, nav: None, restore_focus: false }
}

/// An outcome that consumes the key and asks for a re-filter.
pub open spec fn edit_outcome(restore_focus: bool) -> KeyOutcome {
    KeyOutcome { consumed: true, commit: false, refilter: true, nav: None, restore_focus }
}

/// The query after a backspace: the last character gone, an empty query
/// unchanged.
pub open spec fn query_popped(q: Seq<char>) -> Seq<char> {
    if q.len() == 0 {
        q
    } else {
        q.drop_last()
    }
}

/// Query editing shared by both schemes: backspace removes the last
/// character, escape clears, an accepted character is appended; any
/// other key is left unconsumed.
pub open spec fn edit_step(s: StateModel, key: Key) -> (StateModel, KeyOutcome) {
    match key {
        Key::Backspace => (StateModel { query: query_popped(s.query), ..s }, edit_outcome(false)),
        Key::Escape => (StateModel { query: Seq::empty(), ..s }, edit_outcome(false)),
        Key::Char(c) => if edit_accepts(c) {
            (StateModel { query: s.query.push(c), ..s }, edit_outcome(false))
        } else {
            (s, quiet_outcome(false))
        },
        _ => (s, quiet_outcome(false)),
    }
}

/// The modal scheme while searching: escape leaves for Normal clearing
/// the query; backspace on an empty query also leaves for Normal and
/// hands focus back; otherwise the shared query editing applies.
pub open spec fn searching_step(s: StateModel, key: Key) -> (StateModel, KeyOutcome) {
    if key == Key::Escape {
        (StateModel { mode: Mode::Normal, query: Seq::empty(), ..s }, edit_outcome(false))
    } else if key == Key::Backspace && s.query.len() == 0 {
        (StateModel { mode: Mode::Normal, query: Seq::empty(), ..s }, edit_outcome(true))
    } else {
        edit_step(s, key)
    }
}

/// The modal scheme in Normal mode: the four navigation characters move
/// the selection (or select the first entry), the slash opens the
/// search; everything else passes through.
pub open spec fn normal_step(s: StateModel, key: Key, has_selection: bool) -> (
    StateModel,
    KeyOutcome,
) {
    match key {
        Key::Char(c) => if c == 'h' || c == 'j' || c == 'k' || c == 'l' {
            let dir = if c == 'h' {
                Direction::Left
            } else if c == 'j' {
                Direction::Down
            } else if c == 'k' {
                Direction::Up
            } else {
                Direction::Right
            };
            let nav = if has_selection {
                NavAction::Move(dir)
            } else {
                NavAction::SelectFirst
            };
            (
                s,
                KeyOutcome {
                    consumed: true,
                    commit: false,
                    refilter: false,
                    nav: Some(nav),
                    restore_focus: false,
                },
            )
        } else if c == '/' {
            (StateModel { mode: Mode::Searching, ..s }, quiet_outcome(true))
        } else {
            (s, quiet_outcome(false))
        },
        _ => (s, quiet_outcome(false)),
    }
}

/// One step of the input state machine: the commit key acts in every
/// state; under the modal scheme the current mode decides between
/// navigation and query editing; without it every key edits the query.
pub open spec fn step_spec(s: StateModel, key: Key, has_selection: bool) -> (
    StateModel,
    KeyOutcome,
) {
    if key == Key::Enter {
        (
            s,
            KeyOutcome {
                consumed: true,
                commit: has_selection,
                refilter: false,
                nav: None,
                restore_focus: false,
            },
        )
    } else if s.vi_mode {
        if s.mode == Mode::Searching {
            searching_step(s, key)
        } else {
            normal_step(s, key, has_selection)
        }
    } else {
        edit_step(s, key)
    }
}

/// A well-formed state: without the modal scheme the mode rests at
/// Normal, and in modal Normal mode the query is empty (leaving the
/// search always clears it).
pub open spec fn state_wf(s: StateModel) -> bool {
    &&& !s.vi_mode ==> s.mode == Mode::Normal
    &&& s.vi_mode && s.mode == Mode::Normal ==> s.query.len() == 0
}

/// Every step keeps the state well-formed.
pub proof fn lemma_step_preserves_wf(s: StateModel, key: Key, has_selection: bool)
    requires
        state_wf(s),
    ensures
        state_wf(step_spec(s, key, has_selection).0),
{
}

impl InputState {
    /// The initial state: Normal mode, empty query.
    pub fn new(vi_mode: bool) -> (s: InputState)
        ensures
            s@ == (StateModel { vi_mode, mode: Mode::Normal, query: Seq::<char>::empty() }),
    {
        InputState { vi_mode, mode: Mode::Normal, query: String::new() }
    }

    /// Whether the status label is shown: under the modal scheme while
    /// searching, otherwise whenever the query is nonempty.
    pub open spec fn label_visible_spec(s: StateModel) -> bool {
        if s.vi_mode {
            s.mode == Mode::Searching
        } else {
            s.query.len() > 0
        }
    }

    /// Whether the status label is shown for this state.
    pub fn label_visible(&self) -> (r: bool)
        ensures
            r == Self::label_visible_spec(self@),
    {
        if self.vi_mode {
            match self.mode {
                Mode::Searching => true,
                Mode::Normal => false,
            }
        } else {
            !self.query.as_str().is_empty()
        }
    }

    /// The status label's text: the search prompt followed by the query.
    pub fn status_text(&self) -> (r: String)
        ensures
            r@ == "Search: "@ + self.query@,
    {
        let mut t = "Search: ".to_owned();
        t.append(self.query.as_str());
        t
    }

    /// Feeds one key press to the state machine; the caller performs the
    /// returned outcome.
    pub fn handle_key(&mut self, key: Key, has_selection: bool) -> (out: KeyOutcome)
        ensures
            final(self)@ == step_spec(old(self)@, key, has_selection).0,
            out == step_spec(old(self)@, key, has_selection).1,
    {
        match key {
            Key::Enter => KeyOutcome {
                consumed: true,
                commit: has_selection,
                refilter: false,
                nav: None,
                restore_focus: false,
            },
            _ => {
                if self.vi_mode {
                    match self.mode {
                        Mode::Searching => self.searching_key(key),
                        Mode::Normal => self.normal_key(key, has_selection),
                    }
                } else {
                    self.edit_key(key)
                }
            },
        }
    }

    /// Query editing shared by both schemes.
    fn edit_key(&mut self, key: Key) -> (out: KeyOutcome)
        requires
            key != Key::Enter,
        ensures
            final(self)@ == edit_step(old(self)@, key).0,
            out == edit_step(old(self)@, key).1,
    {
        match key {
            Key::Backspace => {
                let _ = pop_char(&mut self.query);
                KeyOutcome {
                    consumed: true,
                    commit: false,
                    refilter: true,
                    nav: None,
                    restore_focus: false,
                }
            },
            Key::Escape => {
                self.query = String::new();
                KeyOutcome {
                    consumed: true,
                    commit: false,
                    refilter: true,
                    nav: None,
                    restore_focus: false,
                }
            },
            Key::Char(c) => {
                if char_is_alphanumeric(c) || c == '-' || c == '_' || c == '.' {
                    push_char(&mut self.query, c);
                    KeyOutcome {
                        consumed: true,
                        commit: false,
                        refilter: true,
                        nav: None,
                        restore_focus: false,
                    }
                } else {
                    KeyOutcome {
                        consumed: false,
                        commit: false,
                        refilter: false,
                        nav: None,
                        restore_focus: false,
                    }
                }
            },
            _ => KeyOutcome {
                consumed: false,
                commit: false,
                refilter: false,
                nav: None,
                restore_focus: false,
            },
        }
    }

    /// The modal scheme while searching.
    fn searching_key(&mut self, key: Key) -> (out: KeyOutcome)
        requires
            key != Key::Enter,
        ensures
            final(self)@ == searching_step(old(self)@, key).0,
            out == searching_step(old(self)@, key).1,
    {
        match key {
            Key::Escape => {
                self.mode = Mode::Normal;
                self.query = String::new();
                KeyOutcome {
                    consumed: true,
                    commit: false,
                    refilter: true,
                    nav: None,
                    restore_focus: false,
                }
            },
            Key::Backspace => {
                if self.query.as_str().is_empty() {
                    self.mode = Mode::Normal;
                    self.query = String::new();
                    KeyOutcome {
                        consumed: true,
                        commit: false,
                        refilter: true,
                        nav: None,
                        restore_focus: true,
                    }
                } else {
                    self.edit_key(key)
                }
            },
            _ => self.edit_key(key),
        }
    }

    /// The modal scheme in Normal mode.
    fn normal_key(&mut self, key: Key, has_selection: bool) -> (out: KeyOutcome)
        requires
            key != Key::Enter,
        ensures
            final(self)@ == normal_step(old(self)@, key, has_selection).0,
            out == normal_step(old(self)@, key, has_selection).1,
    {
        match key {
            Key::Char(c) => {
                if c == 'h' || c == 'j' || c == 'k' || c == 'l' {
                    let dir = if c == 'h' {
                        Direction::Left
                    } else if c == 'j' {
                        Direction::Down
                    } else if c == 'k' {
                        Direction::Up
                    } else {
                        Direction::Right
                    };
                    let nav = if has_selection {
                        NavAction::Move(dir)
                    } else {
                        NavAction::SelectFirst
                    };
                    KeyOutcome {
                        consumed: true,
                        commit: false,
                        refilter: false,
                        nav: Some(nav),
                        restore_focus: false,
                    }
                } else if c == '/' {
                    self.mode = Mode::Searching;
                    KeyOutcome {
                        consumed: true,
                        commit: false,
                        refilter: false,
                        nav: None,
                        restore_focus: false,
                    }
                } else {
                    KeyOutcome {
                        consumed: false,
                        commit: false,
                        refilter: false,
                        nav: None,
                        restore_focus: false,
                    }
                }
            },
            _ => KeyOutcome {
                consumed: false,
                commit: false,
                refilter: false,
                nav: None,
                restore_focus: false,
            },
        }
    }
}

} // verus!

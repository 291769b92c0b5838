//! The picker's state machine.
//!
//! The picker shows stored entries, moves a highlight over them, searches,
//! pins, deletes and pastes. Each input is a [`Message`]; [`update`] changes
//! the state and returns the [`Command`] that the application carries out
//! (database work, clipboard work, leaving). The outcome of that work comes
//! back through the `after_*` functions.

use vstd::prelude::*;

use crate::config::KeysConfig;
use crate::text::str_equal;
use crate::types::EntryPreview;

verus! {

/// How many entries the picker lists or finds at a time.
pub const LIST_LIMIT: usize = 100;

/// All inputs that drive the picker.
#[derive(Debug, Clone)]
pub enum Message {
    MoveUp,
    MoveDown,
    /// Paste the selected entry to the clipboard and exit.
    Select,
    /// Delete the selected entry.
    Delete,
    /// Toggle pin on the selected entry.
    Pin,
    /// Quit the picker.
    Quit,
    /// Focus the search input.
    EnterSearch,
    /// The search text changed.
    SearchChanged(String),
    /// Enter was pressed in the search input.
    SearchSubmit,
    /// Escape was pressed: leave search mode, or quit.
    EscapePressed,
    /// An entry was clicked.
    EntryClicked(usize),
}

/// Work that the application carries out after an update.
#[derive(Debug, Clone)]
pub enum Command {
    /// Nothing to do.
    Nothing,
    /// Leave the picker.
    Exit,
    /// Load the entry with this id and paste it to the clipboard.
    Paste(i64),
    /// Delete the entry with this id, then reload the list.
    Delete(i64),
    /// Toggle the pin of the entry with this id, then reload the list.
    TogglePin(i64),
    /// Give the search input keyboard focus.
    FocusSearch,
    /// Reload the full list of entries.
    Reload,
    /// Search the entries for this query.
    Search(String),
}

/// The commands, with queries as character sequences.
pub enum CommandView {
    Nothing,
    Exit,
    Paste(i64),
    Delete(i64),
    TogglePin(i64),
    FocusSearch,
    Reload,
    Search(Seq<char>),
}

impl View for Command {
    type V = CommandView;

    open spec fn view(&self) -> CommandView {
        match self {
            Command::Nothing => CommandView::Nothing,
            Command::Exit => CommandView::Exit,
            Command::Paste(id) => CommandView::Paste(*id),
            Command::Delete(id) => CommandView::Delete(*id),
            Command::TogglePin(id) => CommandView::TogglePin(*id),
            Command::FocusSearch => CommandView::FocusSearch,
            Command::Reload => CommandView::Reload,
            Command::Search(q) => CommandView::Search(q@),
        }
    }
}

/// The picker's state.
pub struct PickerState {
    /// Entries displayed in the list.
    pub entries: Vec<EntryPreview>,
    /// Index of the highlighted entry.
    pub selected: usize,
    /// Current search query.
    pub search_query: String,
    /// Whether the search input is active.
    pub search_mode: bool,
}

/// The picker's state as values.
pub struct PickerView {
    pub entries: Seq<EntryPreview>,
    pub selected: nat,
    pub query: Seq<char>,
    pub search_mode: bool,
}

impl View for PickerState {
    type V = PickerView;

    open spec fn view(&self) -> PickerView {
        PickerView {
            entries: self.entries@,
            selected: self.selected as nat,
            query: self.search_query@,
            search_mode: self.search_mode,
        }
    }
}

/// The command that acts on the highlighted entry, if there is one.
pub open spec fn on_selected(s: PickerView, make: spec_fn(i64) -> CommandView) -> CommandView {
    if s.selected < s.entries.len() {
        make(s.entries[s.selected as int].id)
    } else {
        CommandView::Nothing
    }
}

/// The state after a message.
pub open spec fn next_state(s: PickerView, m: Message) -> PickerView {
    match m {
        Message::MoveUp => if s.entries.len() > 0 && s.selected > 0 {
            PickerView { selected: (s.selected - 1) as nat, ..s }
        } else {
            s
        },
        Message::MoveDown => if s.entries.len() > 0 && s.selected < s.entries.len() - 1 {
            PickerView { selected: s.selected + 1, ..s }
        } else {
            s
        },
        Message::EnterSearch => PickerView { search_mode: true, ..s },
        Message::SearchChanged(q) => PickerView { query: q@, selected: 0, ..s },
        Message::EscapePressed => if s.search_mode {
            PickerView { search_mode: false, query: seq![], selected: 0, ..s }
        } else {
            s
        },
        Message::EntryClicked(i) => PickerView { selected: i as nat, ..s },
        _ => s,
    }
}

/// The command issued for a message.
pub open spec fn command_for(s: PickerView, m: Message) -> CommandView {
    match m {
        Message::Select | Message::SearchSubmit => on_selected(s, |id: i64| CommandView::Paste(id)),
        Message::Delete => on_selected(s, |id: i64| CommandView::Delete(id)),
        Message::Pin => on_selected(s, |id: i64| CommandView::TogglePin(id)),
        Message::Quit => CommandView::Exit,
        Message::EnterSearch => CommandView::FocusSearch,
        Message::SearchChanged(q) => if q@.len() == 0 {
            CommandView::Reload
        } else {
            CommandView::Search(q@)
        },
        Message::EscapePressed => if s.search_mode {
            CommandView::Reload
        } else {
            CommandView::Exit
        },
        _ => CommandView::Nothing,
    }
}

impl PickerState {
    /// The initial state: the loaded entries, the first one highlighted,
    /// no search.
    pub fn new(entries: Vec<EntryPreview>) -> (r: PickerState)
        ensures
            r@.entries == entries@,
            r@.selected == 0,
            r@.query == Seq::<char>::empty(),
            !r@.search_mode,
    {
        PickerState { entries, selected: 0, search_query: String::new(), search_mode: false }
    }

    fn selected_id(&self) -> (r: Option<i64>)
        ensures
            match r {
                Some(id) => self.selected < self.entries@.len() && id
                    == self.entries@[self.selected as int].id,
                None => self.selected >= self.entries@.len(),
            },
    {
        if self.selected < self.entries.len() {
            Some(self.entries[self.selected].id)
        } else {
            None
        }
    }
}

/// Process a message: update the state and return the work to carry out.
pub fn update(state: &mut PickerState, message: Message) -> (cmd: Command)
    ensures
        final(state)@ == next_state(old(state)@, message),
        cmd@ == command_for(old(state)@, message),
{
    match message {
        Message::MoveUp => {
            if state.entries.len() > 0 && state.selected > 0 {
                state.selected = state.selected - 1;
            }
            Command::Nothing
        },
        Message::MoveDown => {
            if state.entries.len() > 0 && state.selected < state.entries.len() - 1 {
                state.selected = state.selected + 1;
            }
            Command::Nothing
        },
        Message::Select | Message::SearchSubmit => match state.selected_id() {
            Some(id) => Command::Paste(id),
            None => Command::Nothing,
        },
        Message::Delete => match state.selected_id() {
            Some(id) => Command::Delete(id),
            None => Command::Nothing,
        },
        Message::Pin => match state.selected_id() {
            Some(id) => Command::TogglePin(id),
            None => Command::Nothing,
        },
        Message::Quit => Command::Exit,
        Message::EnterSearch => {
            state.search_mode = true;
            Command::FocusSearch
        },
        Message::SearchChanged(query) => {
            let empty = query.as_str().is_empty();
            let cmd = if empty {
                Command::Reload
            } else {
                Command::Search(query.clone())
            };
            state.search_query = query;
            state.selected = 0;
            cmd
        },
        Message::EscapePressed => {
            if state.search_mode {
                state.search_mode = false;
                state.search_query = String::new();
                state.selected = 0;
                Command::Reload
            } else {
                Command::Exit
            }
        },
        Message::EntryClicked(index) => {
            state.selected = index;
            Command::Nothing
        },
    }
}


/// The highlight after the list was reloaded following a deletion: it
/// moves back by one when it fell off the end of a non-empty range.
pub open spec fn selection_after_delete(selected: nat, len: nat) -> nat {
    if selected >= len && selected > 0 {
        (selected - 1) as nat
    } else {
        selected
    }
}

/// The list was reloaded after a reload command, a pin toggle, or a failed
/// search: show the loaded entries.
pub fn after_reload(state: &mut PickerState, entries: Vec<EntryPreview>)
    ensures
        final(state)@ == (PickerView { entries: entries@, ..old(state)@ }),
{
    state.entries = entries;
}

/// The selected entry was deleted and the list reloaded: show the loaded
/// entries and keep the highlight inside them.
pub fn after_delete(state: &mut PickerState, entries: Vec<EntryPreview>)
    ensures
        final(state)@ == (PickerView {
            entries: entries@,
            selected: selection_after_delete(old(state)@.selected, entries@.len()),
            ..old(state)@
        }),
        old(state).selected <= entries@.len() ==> (entries@.len() == 0 || final(state).selected
            < entries@.len()),
        old(state).selected < entries@.len() ==> final(state).selected == old(state).selected,
        old(state).selected >= entries@.len() && old(state).selected > 0 ==> final(state).selected
            == old(state).selected - 1,
        final(state).entries@ == entries@,
{
    state.entries = entries;
    if state.selected >= state.entries.len() && state.selected > 0 {
        state.selected = state.selected - 1;
    }
}

/// A search finished: show its results, or, when it failed, ask for the
/// full list to be reloaded.
pub fn after_search(state: &mut PickerState, results: Option<Vec<EntryPreview>>) -> (cmd: Command)
    ensures
        match results {
            Some(r) => final(state)@ == (PickerView { entries: r@, ..old(state)@ }) && cmd@
                == CommandView::Nothing,
            None => final(state)@ == old(state)@ && cmd@ == CommandView::Reload,
        },
{
    match results {
        Some(r) => {
            state.entries = r;
            Command::Nothing
        },
        None => Command::Reload,
    }
}

/// A paste was attempted: the picker exits when the entry was found and
/// placed on the clipboard, and stays otherwise.
pub fn after_paste(found: bool, pasted: bool) -> (cmd: Command)
    ensures
        cmd@ == (if found && pasted {
            CommandView::Exit
        } else {
            CommandView::Nothing
        }),
{
    if found && pasted {
        Command::Exit
    } else {
        Command::Nothing
    }
}

// ─── Laws ───────────────────────────────────────────────────────────────

/// Moving up or down keeps a highlight that is inside the list inside it.
pub proof fn lemma_navigation_stays_in_list(s: PickerView)
    requires
        s.selected < s.entries.len(),
    ensures
        next_state(s, Message::MoveUp).selected < s.entries.len(),
        next_state(s, Message::MoveDown).selected < s.entries.len(),
        next_state(s, Message::MoveUp).entries == s.entries,
        next_state(s, Message::MoveDown).entries == s.entries,
{
}

/// Moving down and then up returns to the same entry when there is an
/// entry below; moving up and then down does when there is one above.
pub proof fn lemma_navigation_round_trip(s: PickerView)
    ensures
        s.selected + 1 < s.entries.len() ==> next_state(next_state(s, Message::MoveDown), Message::MoveUp) == s,
        0 < s.selected < s.entries.len() ==> next_state(next_state(s, Message::MoveUp), Message::MoveDown) == s,
{
}

/// At the ends of the list, moving further does nothing.
pub proof fn lemma_navigation_clamps(s: PickerView)
    ensures
        s.selected == 0 ==> next_state(s, Message::MoveUp) == s,
        s.entries.len() > 0 && s.selected == s.entries.len() - 1 ==> next_state(s, Message::MoveDown) == s,
        s.entries.len() == 0 ==> next_state(s, Message::MoveDown) == s && next_state(s, Message::MoveUp) == s,
{
}

/// Escape leaves search mode (clearing the query, highlighting the first
/// entry and reloading the full list); outside search mode it quits.
pub proof fn lemma_escape(s: PickerView)
    ensures
        s.search_mode ==> {
            &&& !next_state(s, Message::EscapePressed).search_mode
            &&& next_state(s, Message::EscapePressed).query == Seq::<char>::empty()
            &&& next_state(s, Message::EscapePressed).selected == 0
            &&& command_for(s, Message::EscapePressed) == CommandView::Reload
        },
        !s.search_mode ==> {
            &&& next_state(s, Message::EscapePressed) == s
            &&& command_for(s, Message::EscapePressed) == CommandView::Exit
        },
{
}

/// Entering search and pressing Escape returns to normal mode with an empty
/// query, and the same entries.
pub proof fn lemma_search_then_escape(s: PickerView)
    ensures
        ({
            let t = next_state(next_state(s, Message::EnterSearch), Message::EscapePressed);
            &&& !t.search_mode
            &&& t.query == Seq::<char>::empty()
            &&& t.entries == s.entries
        }),
{
}

/// Selecting, deleting and pinning act on the highlighted entry, and only
/// when one is highlighted.
pub proof fn lemma_actions_target_highlight(s: PickerView)
    ensures
        s.selected < s.entries.len() ==> {
            let id = s.entries[s.selected as int].id;
            &&& command_for(s, Message::Select) == CommandView::Paste(id)
            &&& command_for(s, Message::SearchSubmit) == CommandView::Paste(id)
            &&& command_for(s, Message::Delete) == CommandView::Delete(id)
            &&& command_for(s, Message::Pin) == CommandView::TogglePin(id)
        },
        s.selected >= s.entries.len() ==> {
            &&& command_for(s, Message::Select) == CommandView::Nothing
            &&& command_for(s, Message::Delete) == CommandView::Nothing
            &&& command_for(s, Message::Pin) == CommandView::Nothing
        },
{
}

/// Typing a query highlights the first entry and searches for exactly that
/// query; clearing it reloads the full list.
pub proof fn lemma_search_query(s: PickerView, q: String)
    ensures
        next_state(s, Message::SearchChanged(q)).query == q@,
        next_state(s, Message::SearchChanged(q)).selected == 0,
        q@.len() > 0 ==> command_for(s, Message::SearchChanged(q)) == CommandView::Search(q@),
        q@.len() == 0 ==> command_for(s, Message::SearchChanged(q)) == CommandView::Reload,
{
}


/// Entering search focuses the search input and turns search mode on,
/// leaving the list, the query and the highlight as they were.
pub proof fn lemma_enter_search(s: PickerView)
    ensures
        command_for(s, Message::EnterSearch) == CommandView::FocusSearch,
        next_state(s, Message::EnterSearch) == (PickerView { search_mode: true, ..s }),
{
}

/// A click only moves the highlight to the clicked row: the picker stays
/// open, nothing is pasted, deleted or pinned, and nothing else changes.
pub proof fn lemma_click_moves_highlight_only(s: PickerView, i: usize)
    ensures
        command_for(s, Message::EntryClicked(i)) == CommandView::Nothing,
        next_state(s, Message::EntryClicked(i)).selected == i,
        next_state(s, Message::EntryClicked(i)).entries == s.entries,
        next_state(s, Message::EntryClicked(i)).query == s.query,
        next_state(s, Message::EntryClicked(i)).search_mode == s.search_mode,
{
}

/// After a deletion the highlight stays on the same row while that row
/// still exists (it now shows the next entry), and moves back by one only
/// when it fell off the end.
pub proof fn lemma_delete_keeps_row(k: nat, n: nat)
    ensures
        k < n ==> selection_after_delete(k, n) == k,
        n <= k && k > 0 ==> selection_after_delete(k, n) + 1 == k,
        k == 0 ==> selection_after_delete(k, n) == 0,
{
}

/// Messages other than navigation, searching and clicks leave the state as
/// it is; only Quit and Escape outside search mode leave the picker.
pub proof fn lemma_exit_only_on_quit_or_escape(s: PickerView, m: Message)
    ensures
        command_for(s, m) == CommandView::Exit <==> (m is Quit || (m is EscapePressed
            && !s.search_mode)),
        (m is Select || m is SearchSubmit || m is Delete || m is Pin || m is Quit)
            ==> next_state(s, m) == s,
{
}

/// Which list the picker shows: every entry, or those matching the query.
#[derive(Debug, Clone)]
pub enum Listing {
    All,
    Matching(String),
}

/// The list to load after an entry was deleted or its pin toggled: the
/// search results while a query is entered, the full list otherwise.
pub fn listing_for(state: &PickerState) -> (r: Listing)
    ensures
        match r {
            Listing::All => state@.query.len() == 0,
            Listing::Matching(q) => state@.query.len() > 0 && q@ == state@.query,
        },
{
    if state.search_query.as_str().is_empty() {
        Listing::All
    } else {
        Listing::Matching(state.search_query.clone())
    }
}

/// The highlight names a listed entry, or there is none to name.
pub open spec fn highlight_listed(s: PickerView) -> bool {
    s.entries.len() == 0 || s.selected < s.entries.len()
}

/// The state once a message and the list loaded in reply (`reply`) have
/// been taken in: a deletion goes through `after_delete`, a pin toggle or a
/// reload or search through `after_reload`/`after_search`.
pub open spec fn settled(s: PickerView, m: Message, reply: Seq<EntryPreview>) -> PickerView {
    let t = next_state(s, m);
    match command_for(s, m) {
        CommandView::Delete(_) => PickerView {
            entries: reply,
            selected: selection_after_delete(t.selected, reply.len()),
            ..t
        },
        CommandView::TogglePin(_) | CommandView::Reload | CommandView::Search(_) => PickerView {
            entries: reply,
            ..t
        },
        _ => t,
    }
}

/// The highlight keeps naming a listed entry across every message but a
/// click, when the database answers a deletion with at most one entry fewer
/// and a pin toggle with no fewer entries (no other writer meanwhile).
pub proof fn lemma_highlight_stays_listed(s: PickerView, m: Message, reply: Seq<EntryPreview>)
    requires
        highlight_listed(s),
        !(m is EntryClicked),
        m is Delete && s.selected < s.entries.len() ==> reply.len() + 1 >= s.entries.len(),
        m is Pin && s.selected < s.entries.len() ==> reply.len() >= s.entries.len(),
    ensures
        highlight_listed(settled(s, m, reply)),
{
}

// ─── Keyboard ───────────────────────────────────────────────────────────

/// A pressed key, as far as the picker tells keys apart.
#[derive(Debug, Clone)]
pub enum Key {
    Escape,
    Enter,
    ArrowDown,
    ArrowUp,
    /// A key that produces text.
    Character(String),
    /// Any other key.
    Other,
}

/// Whether a key is the one a configured key name denotes: `Escape`,
/// `Return` (or `Enter`), `Down` and `Up` name the special keys, and any
/// other name the key that produces that text.
pub open spec fn key_named(key: Key, name: Seq<char>) -> bool {
    match key {
        Key::Escape => name == "Escape"@,
        Key::Enter => name == "Return"@ || name == "Enter"@,
        Key::ArrowDown => name == "Down"@,
        Key::ArrowUp => name == "Up"@,
        Key::Character(c) => c@ == name,
        Key::Other => false,
    }
}

/// The message for a key press under the configured bindings. Escape
/// always counts, as leaving search or quitting; other keys count only when
/// no widget has taken the press (`captured` is false). The arrow keys also
/// move the highlight; then the bindings are tried in the order scroll
/// down, scroll up, select, delete, pin, search, quit.
pub open spec fn key_message(key: Key, captured: bool, keys: KeysConfig) -> Option<Message> {
    if key is Escape {
        Some(Message::EscapePressed)
    } else if captured {
        None
    } else if key is ArrowDown || key_named(key, keys.scroll_down@) {
        Some(Message::MoveDown)
    } else if key is ArrowUp || key_named(key, keys.scroll_up@) {
        Some(Message::MoveUp)
    } else if key_named(key, keys.select@) {
        Some(Message::Select)
    } else if key_named(key, keys.delete@) {
        Some(Message::Delete)
    } else if key_named(key, keys.pin@) {
        Some(Message::Pin)
    } else if key_named(key, keys.search@) {
        Some(Message::EnterSearch)
    } else if key_named(key, keys.quit@) {
        Some(Message::Quit)
    } else {
        None
    }
}

/// Whether `key` is the key named `name`.
pub fn is_key_named(key: &Key, name: &str) -> (r: bool)
    ensures
        r == key_named(*key, name@),
{
    match key {
        Key::Escape => str_equal(name, "Escape"),
        Key::Enter => str_equal(name, "Return") || str_equal(name, "Enter"),
        Key::ArrowDown => str_equal(name, "Down"),
        Key::ArrowUp => str_equal(name, "Up"),
        Key::Character(c) => str_equal(c.as_str(), name),
        Key::Other => false,
    }
}

/// Map a key press to a picker message under the configured bindings.
pub fn message_for_key(key: &Key, captured: bool, keys: &KeysConfig) -> (r: Option<Message>)
    ensures
        r == key_message(*key, captured, *keys),
{
    if let Key::Escape = key {
        Some(Message::EscapePressed)
    } else if captured {
        None
    } else if matches!(key, Key::ArrowDown) || is_key_named(key, keys.scroll_down.as_str()) {
        Some(Message::MoveDown)
    } else if matches!(key, Key::ArrowUp) || is_key_named(key, keys.scroll_up.as_str()) {
        Some(Message::MoveUp)
    } else if is_key_named(key, keys.select.as_str()) {
        Some(Message::Select)
    } else if is_key_named(key, keys.delete.as_str()) {
        Some(Message::Delete)
    } else if is_key_named(key, keys.pin.as_str()) {
        Some(Message::Pin)
    } else if is_key_named(key, keys.search.as_str()) {
        Some(Message::EnterSearch)
    } else if is_key_named(key, keys.quit.as_str()) {
        Some(Message::Quit)
    } else {
        None
    }
}

/// Escape is never swallowed by a focused widget; other keys are ignored
/// while a widget holds them; and a free key performs the action of the
/// first binding that names it, in the order scroll down (or the down
/// arrow), scroll up (or the up arrow), select, delete, pin, search, quit.
pub proof fn lemma_key_bindings(key: Key, captured: bool, keys: KeysConfig)
    ensures
        key is Escape ==> key_message(key, captured, keys) == Some(Message::EscapePressed),
        !(key is Escape) && captured ==> key_message(key, captured, keys) is None,
        ({
            let free = !(key is Escape) && !captured;
            let down = key is ArrowDown || key_named(key, keys.scroll_down@);
            let up = key is ArrowUp || key_named(key, keys.scroll_up@);
            let sel = key_named(key, keys.select@);
            let del = key_named(key, keys.delete@);
            let pin = key_named(key, keys.pin@);
            let search = key_named(key, keys.search@);
            let quit = key_named(key, keys.quit@);
            &&& free && down ==> key_message(key, captured, keys) == Some(Message::MoveDown)
            &&& free && !down && up ==> key_message(key, captured, keys) == Some(Message::MoveUp)
            &&& free && !down && !up && sel ==> key_message(key, captured, keys) == Some(
                Message::Select,
            )
            &&& free && !down && !up && !sel && del ==> key_message(key, captured, keys) == Some(
                Message::Delete,
            )
            &&& free && !down && !up && !sel && !del && pin ==> key_message(key, captured, keys)
                == Some(Message::Pin)
            &&& free && !down && !up && !sel && !del && !pin && search ==> key_message(
                key,
                captured,
                keys,
            ) == Some(Message::EnterSearch)
            &&& free && !down && !up && !sel && !del && !pin && !search && quit ==> key_message(
                key,
                captured,
                keys,
            ) == Some(Message::Quit)
            &&& free && !down && !up && !sel && !del && !pin && !search && !quit ==> key_message(
                key,
                captured,
                keys,
            ) is None
        }),
{
}

/// A key names a binding exactly when the binding is the key's text, or
/// the special key's name.
pub proof fn lemma_key_named(c: String, name: Seq<char>)
    ensures
        key_named(Key::Character(c), name) <==> c@ == name,
        key_named(Key::Escape, name) <==> name == "Escape"@,
        !key_named(Key::Other, name),
{
}

/// With the default bindings, `j`/`k` and the arrows move, Enter selects,
/// `d` deletes, `p` pins and `/` searches.
pub proof fn lemma_default_bindings(keys: KeysConfig)
    requires
        keys.scroll_up@ == "k"@,
        keys.scroll_down@ == "j"@,
        keys.select@ == "Return"@,
        keys.delete@ == "d"@,
        keys.search@ == "/"@,
        keys.quit@ == "Escape"@,
        keys.pin@ == "p"@,
    ensures
        forall|c: String| #![auto] c@ == "j"@ ==> key_message(Key::Character(c), false, keys) == Some(Message::MoveDown),
        forall|c: String| #![auto] c@ == "k"@ ==> key_message(Key::Character(c), false, keys) == Some(Message::MoveUp),
        forall|c: String| #![auto] c@ == "d"@ ==> key_message(Key::Character(c), false, keys) == Some(Message::Delete),
        forall|c: String| #![auto] c@ == "p"@ ==> key_message(Key::Character(c), false, keys) == Some(Message::Pin),
        forall|c: String| #![auto] c@ == "/"@ ==> key_message(Key::Character(c), false, keys) == Some(Message::EnterSearch),
        key_message(Key::Enter, false, keys) == Some(Message::Select),
        key_message(Key::ArrowDown, false, keys) == Some(Message::MoveDown),
        key_message(Key::ArrowUp, false, keys) == Some(Message::MoveUp),
        key_message(Key::Escape, true, keys) == Some(Message::EscapePressed),
{
    reveal_strlit("j");
    reveal_strlit("k");
    reveal_strlit("Return");
    reveal_strlit("Enter");
    reveal_strlit("Down");
    reveal_strlit("Up");
    reveal_strlit("d");
    reveal_strlit("p");
    reveal_strlit("/");
    reveal_strlit("Escape");
    assert("j"@[0] == 'j' && "k"@[0] == 'k' && "d"@[0] == 'd' && "p"@[0] == 'p' && "/"@[0] == '/');
    assert("j"@ != "k"@);
    assert("d"@ != "j"@ && "d"@ != "k"@);
    assert("p"@ != "j"@ && "p"@ != "k"@ && "p"@ != "d"@);
    assert("/"@ != "j"@ && "/"@ != "k"@ && "/"@ != "d"@ && "/"@ != "p"@);
    assert("d"@.len() != "Return"@.len() && "p"@.len() != "Return"@.len() && "/"@.len() != "Return"@.len());
    assert("Return"@.len() != "Down"@.len() && "Return"@.len() != "Up"@.len());
    assert("j"@.len() != "Return"@.len() && "j"@.len() != "Enter"@.len());
    assert("k"@.len() != "Return"@.len() && "k"@.len() != "Enter"@.len());
}

} // verus!

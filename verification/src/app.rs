use vstd::prelude::*;

use crate::action::{Action, Event, Key, KeyBindings};
use crate::assoc::{assoc_get, assoc_insert, lemma_assoc_insert_get};
use crate::dashboard::{dashboard_key_action, Dashboard};
use crate::section::{section_after, section_before, Mode, SelectedSection};
use crate::selection::{next_index, previous_index, select_spec, set_spec, ListSelection, SectionStates};
use crate::summary::{is_crate_section, section_entries, CrateCache, CrateDetails, Summary};

verus! {

/// What the terminal has to do after an action was handled.
#[derive(Debug, Clone, Copy, PartialEq, Eq, Structural, Hash)]
pub enum Effect {
    Nothing,
    ClearScreen,
    /// Resize the terminal to this width and height, then draw.
    Resize(u16, u16),
    Render,
}

/// What the main loop does once the queued actions are handled.
#[derive(Debug, Clone, Copy, PartialEq, Eq, Structural, Hash)]
pub enum LoopControl {
    Continue,
    /// Hand the terminal back, then resume and clear the screen.
    Suspend,
    Quit,
}

/// The application state as the contracts see it.
#[verifier::ext_equal]
pub struct AppModel {
    pub mode: Mode,
    pub keybindings: KeyBindings,
    pub should_quit: bool,
    pub should_suspend: bool,
    pub pending_keys: Seq<Key>,
    pub summary: Summary,
    pub current_section: SelectedSection,
    pub state: SectionStates,
    pub cache: Seq<(Seq<char>, CrateDetails)>,
    pub search: bool,
    pub show_info_popup: bool,
}

/// The state after a key press, and the action the key map yields for it.
///
/// A key bound on its own yields its action. Otherwise the key is added to
/// the keys pressed since the last tick, and that sequence is looked up.
/// Without a key map for the current mode nothing happens.
pub open spec fn key_step(m: AppModel, key: Key) -> (AppModel, Option<Action>) {
    match m.keybindings.for_mode(m.mode) {
        None => (m, None),
        Some(km) => match km.lookup(seq![key]) {
            Some(a) => (m, Some(a)),
            None => {
                let pending = m.pending_keys.push(key);
                (AppModel { pending_keys: pending, ..m }, km.lookup(pending))
            },
        },
    }
}

/// The action the application itself derives from an event.
pub open spec fn own_event_action(m: AppModel, e: Event) -> (AppModel, Option<Action>) {
    match e {
        Event::Quit => (m, Some(Action::Quit)),
        Event::Tick => (m, Some(Action::Tick)),
        Event::Render => (m, Some(Action::Render)),
        Event::Resize(x, y) => (m, Some(Action::Resize(x, y))),
        Event::Key(k) => key_step(m, k),
        _ => (m, None),
    }
}

/// An optional action as a sequence of at most one action.
pub open spec fn opt_seq(a: Option<Action>) -> Seq<Action> {
    match a {
        Some(x) => seq![x],
        None => Seq::empty(),
    }
}

/// The state after an event, and the actions sent for it in order: first the
/// application's own, then the dashboard's.
pub open spec fn event_step(m: AppModel, e: Event) -> (AppModel, Seq<Action>) {
    let (m2, own) = own_event_action(m, e);
    let from_dashboard = match e {
        Event::Key(k) => dashboard_key_action(k),
        _ => None,
    };
    (m2, opt_seq(own) + opt_seq(from_dashboard))
}

/// The state after an action is handled.
pub open spec fn action_step(m: AppModel, a: Action) -> AppModel {
    match a {
        Action::Tick => AppModel { pending_keys: Seq::empty(), ..m },
        Action::Quit => AppModel { should_quit: true, ..m },
        Action::Suspend => AppModel { should_suspend: true, ..m },
        Action::Resume => AppModel { should_suspend: false, ..m },
        _ => m,
    }
}

/// What the terminal does for an action.
pub open spec fn action_effect(a: Action) -> Effect {
    match a {
        Action::ClearScreen => Effect::ClearScreen,
        Action::Resize(w, h) => Effect::Resize(w, h),
        Action::Render => Effect::Render,
        _ => Effect::Nothing,
    }
}

/// What the main loop does in state `m`: suspending comes before quitting.
pub open spec fn loop_control_of(m: AppModel) -> LoopControl {
    if m.should_suspend {
        LoopControl::Suspend
    } else if m.should_quit {
        LoopControl::Quit
    } else {
        LoopControl::Continue
    }
}

/// The state after the current section's selection is replaced by `sel`.
pub open spec fn with_selection(m: AppModel, sel: ListSelection) -> AppModel {
    AppModel { state: set_spec(m.state, m.current_section, sel), ..m }
}

/// The selection of the current section.
pub open spec fn current_selection(m: AppModel) -> ListSelection {
    m.state.at(m.current_section)
}

/// The index the info popup looks at: the selected one, or the first.
pub open spec fn info_index(m: AppModel) -> int {
    match current_selection(m).selected {
        Some(i) => i as int,
        None => 0,
    }
}

/// Whether the info popup can look up the selected entry: in a crate section
/// the selected index (or the first, when none is selected) must name an entry.
pub open spec fn info_ready(m: AppModel) -> bool {
    is_crate_section(m.current_section) ==> info_index(m) < section_entries(m.summary, m.current_section).len()
}

/// The crate whose details the info popup needs: the selected crate of a
/// crate section, when its details are not cached yet.
pub open spec fn info_request(m: AppModel) -> Option<Seq<char>> {
    if is_crate_section(m.current_section) {
        let name = section_entries(m.summary, m.current_section)[info_index(m)]@;
        if assoc_get(m.cache, name) is Some {
            None
        } else {
            Some(name)
        }
    } else {
        None
    }
}

/// The state once the info popup is opened: when the popup asked for a
/// crate's details (see [`info_request`]) and they were fetched, they are
/// cached under that crate's name; nothing else is cached.
pub open spec fn info_complete(m: AppModel, fetched: Option<CrateDetails>) -> AppModel {
    let cache = match (info_request(m), fetched) {
        (Some(n), Some(d)) => assoc_insert(m.cache, n, d),
        _ => m.cache,
    };
    AppModel { cache, show_info_popup: true, ..m }
}

/// The info popup asks for the crate selected in the panel the user sees:
/// in each of the four crate panels, the entry of that panel's own list at
/// the selected index (the first when nothing is selected), unless its
/// details are cached; in the keyword and category panels it asks for
/// nothing. The popup can look the entry up exactly when that index lies in
/// the panel's own list.
pub proof fn lemma_info_request_is_selected_crate(m: AppModel)
    ensures
        ({
            let idx: int = match m.state.at(m.current_section).selected {
                Some(i) => i as int,
                None => 0,
            };
            let pick = |list: Seq<String>|
                if idx < list.len() {
                    if assoc_get(m.cache, list[idx]@) is Some { None } else { Some(list[idx]@) }
                } else {
                    info_request(m)
                };
            let within = |list: Seq<String>| idx < list.len();
            match m.current_section {
                SelectedSection::NewCrates => info_request(m) == pick(m.summary.new_crates@)
                    && (info_ready(m) <==> within(m.summary.new_crates@)),
                SelectedSection::MostDownloaded => info_request(m) == pick(m.summary.most_downloaded@)
                    && (info_ready(m) <==> within(m.summary.most_downloaded@)),
                SelectedSection::JustUpdated => info_request(m) == pick(m.summary.just_updated@)
                    && (info_ready(m) <==> within(m.summary.just_updated@)),
                SelectedSection::RecentDownloads => info_request(m) == pick(m.summary.most_recently_downloaded@)
                    && (info_ready(m) <==> within(m.summary.most_recently_downloaded@)),
                SelectedSection::PopularKeywords => info_request(m) is None && info_ready(m),
                SelectedSection::PopularCategories => info_request(m) is None && info_ready(m),
            }
        }),
{
}

/// The state after moving to the next section.
pub open spec fn next_section_step(m: AppModel) -> AppModel {
    AppModel { current_section: section_after(m.current_section), ..m }
}

/// The state after moving to the previous section.
pub open spec fn previous_section_step(m: AppModel) -> AppModel {
    AppModel { current_section: section_before(m.current_section), ..m }
}

/// Moving to the next section and back, or back and then forward, leaves the
/// application as it was.
pub proof fn lemma_section_round_trip(m: AppModel)
    ensures
        previous_section_step(next_section_step(m)) == m,
        next_section_step(previous_section_step(m)) == m,
{
    crate::section::lemma_next_previous_inverse(m.current_section);
}

/// A quit action stops the main loop unless a suspension is pending, which is
/// handled first.
pub proof fn lemma_quit_stops_loop(m: AppModel)
    ensures
        action_step(m, Action::Quit).should_quit,
        !m.should_suspend ==> loop_control_of(action_step(m, Action::Quit)) == LoopControl::Quit,
        m.should_suspend ==> loop_control_of(action_step(m, Action::Quit)) == LoopControl::Suspend,
{
}

/// A suspension makes the main loop suspend; the actions sent when the
/// terminal is taken back (resume, then clear the screen) leave the
/// application as it was before the suspension, except that no suspension is
/// pending any more.
pub proof fn lemma_suspend_then_resume(m: AppModel)
    ensures
        loop_control_of(action_step(m, Action::Suspend)) == LoopControl::Suspend,
        action_step(action_step(action_step(m, Action::Suspend), Action::Resume), Action::ClearScreen)
            == (AppModel { should_suspend: false, ..m }),
        !m.should_suspend ==> action_step(
            action_step(action_step(m, Action::Suspend), Action::Resume),
            Action::ClearScreen,
        ) == m,
{
}

/// A tick forgets the keys pressed since the last tick and changes nothing
/// else.
pub proof fn lemma_tick_clears_pending_keys(m: AppModel)
    ensures
        action_step(m, Action::Tick) == (AppModel { pending_keys: Seq::empty(), ..m }),
{
}

/// Drawing, resizing and clearing the screen leave the application state as it
/// was; they only ask the terminal to act.
pub proof fn lemma_terminal_actions_keep_state(m: AppModel, a: Action)
    requires
        a is Render || a is Resize || a is ClearScreen,
    ensures
        action_step(m, a) == m,
        action_effect(a) != Effect::Nothing,
{
}

/// Pressing `q` or Esc always ends with a quit action, whatever the key map
/// holds: the dashboard answers it after the key map.
pub proof fn lemma_quit_key(m: AppModel, k: Key)
    requires
        k.code == crate::action::KeyCode::Char('q') || k.code == crate::action::KeyCode::Esc,
    ensures
        event_step(m, Event::Key(k)).1.len() > 0,
        event_step(m, Event::Key(k)).1.last() == Action::Quit,
{
}

/// A key that is bound on its own yields its action and leaves the keys
/// pressed since the last tick as they were.
pub proof fn lemma_single_key_binding(m: AppModel, k: Key, a: Action)
    requires
        m.keybindings.for_mode(m.mode) matches Some(km) && km.lookup(seq![k]) == Some(a),
    ensures
        key_step(m, k) == (m, Some(a)),
{
}

/// Events other than quit, tick, render, resize and key presses send nothing
/// and change nothing.
pub proof fn lemma_other_events_ignored(m: AppModel, e: Event)
    requires
        !(e is Quit || e is Tick || e is Render || e is Resize || e is Key),
    ensures
        event_step(m, e) == (m, Seq::<Action>::empty()),
{
    assert(opt_seq(None) + opt_seq(None) =~= Seq::<Action>::empty());
}

/// Once the details the popup asked for are fetched and the popup opened,
/// they are cached under the requested name, the popup is shown, and asking
/// for the popup again, with the selection unchanged, fetches nothing.
pub proof fn lemma_fetched_crate_not_refetched(m: AppModel, details: CrateDetails)
    requires
        info_ready(m),
        info_request(m) is Some,
    ensures
        assoc_get(info_complete(m, Some(details)).cache, info_request(m).unwrap()) == Some(details),
        info_complete(m, Some(details)).show_info_popup,
        info_ready(info_complete(m, Some(details))),
        info_request(info_complete(m, Some(details))) is None,
{
    lemma_assoc_insert_get(m.cache, info_request(m).unwrap(), details, info_request(m).unwrap());
}

/// Opening the popup never drops a cached crate or changes its details.
pub proof fn lemma_complete_keeps_cache(m: AppModel, fetched: Option<CrateDetails>, n: Seq<char>)
    requires
        assoc_get(m.cache, n) is Some,
    ensures
        assoc_get(info_complete(m, fetched).cache, n) == assoc_get(m.cache, n),
{
    if let (Some(f), Some(d)) = (info_request(m), fetched) {
        lemma_assoc_insert_get(m.cache, f, d, n);
    }
}

/// The dashboard application's state.
#[derive(Debug, Clone)]
pub struct App {
    pub mode: Mode,
    pub keybindings: KeyBindings,
    pub should_quit: bool,
    pub should_suspend: bool,
    pub last_tick_key_events: Vec<Key>,
    pub summary: Summary,
    pub current_section: SelectedSection,
    pub state: SectionStates,
    pub crates: CrateCache,
    pub search: bool,
    pub show_info_popup: bool,
    pub dashboard: Dashboard,
}

impl View for App {
    type V = AppModel;

    open spec fn view(&self) -> AppModel {
        AppModel {
            mode: self.mode,
            keybindings: self.keybindings,
            should_quit: self.should_quit,
            should_suspend: self.should_suspend,
            pending_keys: self.last_tick_key_events@,
            summary: self.summary,
            current_section: self.current_section,
            state: self.state,
            cache: self.crates.pairs(),
            search: self.search,
            show_info_popup: self.show_info_popup,
        }
    }
}

impl App {
    /// A new application over a registry summary: dashboard mode, the first
    /// section selected, the first entry of every list selected, nothing
    /// pending, cached or shown.
    pub fn new(keybindings: KeyBindings, summary: Summary, dashboard: Dashboard) -> (r: App)
        ensures
            r@ == (AppModel {
                mode: Mode::Dashboard,
                keybindings,
                should_quit: false,
                should_suspend: false,
                pending_keys: Seq::empty(),
                summary,
                current_section: SelectedSection::NewCrates,
                state: SectionStates::first_selected_spec(),
                cache: Seq::empty(),
                search: false,
                show_info_popup: false,
            }),
            r.dashboard == dashboard,
    {
        let r = App {
            mode: Mode::Dashboard,
            keybindings,
            should_quit: false,
            should_suspend: false,
            last_tick_key_events: Vec::new(),
            summary,
            current_section: SelectedSection::NewCrates,
            state: SectionStates::first_selected(),
            crates: CrateCache::new(),
            search: false,
            show_info_popup: false,
            dashboard,
        };
        assert(r.last_tick_key_events@ =~= Seq::<Key>::empty());
        r
    }

    /// Looks up a key press in the current mode's key map; see [`key_step`].
    pub fn handle_key_event(&mut self, key: Key) -> (r: Option<Action>)
        ensures
            (final(self)@, r) == key_step(old(self)@, key),
            final(self).dashboard == old(self).dashboard,
    {
        let keymap = match self.keybindings.get(self.mode) {
            Some(km) => km,
            None => return None,
        };
        let mut single: Vec<Key> = Vec::new();
        single.push(key);
        assert(single@ =~= seq![key]);
        match keymap.get(&single) {
            Some(action) => Some(action),
            None => {
                self.last_tick_key_events.push(key);
                keymap.get(&self.last_tick_key_events)
            },
        }
    }

    /// Handles a terminal event and returns the actions to send, in order;
    /// see [`event_step`].
    pub fn handle_event(&mut self, event: &Event) -> (r: Vec<Action>)
        ensures
            (final(self)@, r@) == event_step(old(self)@, *event),
            final(self).dashboard == old(self).dashboard,
    {
        let mut out: Vec<Action> = Vec::new();
        match event {
            Event::Quit => out.push(Action::Quit),
            Event::Tick => out.push(Action::Tick),
            Event::Render => out.push(Action::Render),
            Event::Resize(x, y) => out.push(Action::Resize(*x, *y)),
            Event::Key(k) => {
                if let Some(a) = self.handle_key_event(*k) {
                    out.push(a);
                }
            },
            _ => {},
        }
        let ghost own = out@;
        if let Some(a) = self.dashboard.handle_events(Some(event)) {
            out.push(a);
        }
        proof {
            let (m2, own_a) = own_event_action(old(self)@, *event);
            assert(own =~= opt_seq(own_a));
            assert(out@ =~= event_step(old(self)@, *event).1);
        }
        out
    }

    /// Handles one action and returns what the terminal has to do; see
    /// [`action_step`] and [`action_effect`]. The dashboard is told of the
    /// action too and answers nothing.
    pub fn handle_action(&mut self, action: &Action) -> (r: Effect)
        ensures
            final(self)@ == action_step(old(self)@, *action),
            r == action_effect(*action),
            final(self).dashboard == old(self).dashboard,
    {
        let effect = match action {
            Action::Tick => {
                self.last_tick_key_events.clear();
                Effect::Nothing
            },
            Action::Quit => {
                self.should_quit = true;
                Effect::Nothing
            },
            Action::Suspend => {
                self.should_suspend = true;
                Effect::Nothing
            },
            Action::Resume => {
                self.should_suspend = false;
                Effect::Nothing
            },
            Action::ClearScreen => Effect::ClearScreen,
            Action::Resize(w, h) => Effect::Resize(*w, *h),
            Action::Render => Effect::Render,
            _ => Effect::Nothing,
        };
        let _ = self.dashboard.update(action);
        effect
    }

    /// What the main loop does next; see [`loop_control_of`].
    pub fn loop_control(&self) -> (r: LoopControl)
        ensures
            r == loop_control_of(self@),
    {
        if self.should_suspend {
            LoopControl::Suspend
        } else if self.should_quit {
            LoopControl::Quit
        } else {
            LoopControl::Continue
        }
    }

    /// The actions sent once the terminal is taken back after a suspension:
    /// resume, then clear the screen.
    pub fn resume_actions() -> (r: Vec<Action>)
        ensures
            r@ == seq![Action::Resume, Action::ClearScreen],
    {
        let mut r: Vec<Action> = Vec::new();
        r.push(Action::Resume);
        r.push(Action::ClearScreen);
        assert(r@ =~= seq![Action::Resume, Action::ClearScreen]);
        r
    }

    /// Selects the next entry of the current section.
    pub fn select_next(&mut self)
        ensures
            final(self)@ == with_selection(
                old(self)@,
                select_spec(current_selection(old(self)@), Some(next_index(current_selection(old(self)@).selected))),
            ),
            final(self).dashboard == old(self).dashboard,
    {
        let mut sel = self.state.get(self.current_section);
        sel.select_next();
        self.state.set(self.current_section, sel);
    }

    /// Selects the previous entry of the current section.
    pub fn select_previous(&mut self)
        ensures
            final(self)@ == with_selection(
                old(self)@,
                select_spec(current_selection(old(self)@), Some(previous_index(current_selection(old(self)@).selected))),
            ),
            final(self).dashboard == old(self).dashboard,
    {
        let mut sel = self.state.get(self.current_section);
        sel.select_previous();
        self.state.set(self.current_section, sel);
    }

    /// Clears the selection of the current section.
    pub fn select_none(&mut self)
        ensures
            final(self)@ == with_selection(old(self)@, select_spec(current_selection(old(self)@), None)),
            final(self).dashboard == old(self).dashboard,
    {
        let mut sel = self.state.get(self.current_section);
        sel.select(None);
        self.state.set(self.current_section, sel);
    }

    /// Selects the first entry of the current section.
    pub fn select_first(&mut self)
        ensures
            final(self)@ == with_selection(old(self)@, select_spec(current_selection(old(self)@), Some(0))),
            final(self).dashboard == old(self).dashboard,
    {
        let mut sel = self.state.get(self.current_section);
        sel.select_first();
        self.state.set(self.current_section, sel);
    }

    /// Moves to the next section, from the last back to the first.
    pub fn next_section(&mut self)
        ensures
            final(self)@ == next_section_step(old(self)@),
            final(self).dashboard == old(self).dashboard,
    {
        let mut next = self.current_section.index() + 1;
        if next >= SelectedSection::iter().len() {
            next = 0;
        }
        self.current_section = match SelectedSection::from_repr(next) {
            Some(s) => s,
            None => SelectedSection::default(),
        };
    }

    /// Moves to the previous section, from the first to the last.
    pub fn previous_section(&mut self)
        ensures
            final(self)@ == previous_section_step(old(self)@),
            final(self).dashboard == old(self).dashboard,
    {
        let previous: usize = if self.current_section.index() < 1 {
            SelectedSection::iter().len() - 1
        } else {
            self.current_section.index() - 1
        };
        self.current_section = match SelectedSection::from_repr(previous) {
            Some(s) => s,
            None => SelectedSection::default(),
        };
    }

    /// Whether the selected entry can be looked up for the info popup; see
    /// [`info_ready`].
    pub fn show_info_ready(&self) -> (r: bool)
        ensures
            r == info_ready(self@),
    {
        if Summary::lists_crates(self.current_section) {
            let index: usize = match self.state.get(self.current_section).selected() {
                Some(i) => i,
                None => 0,
            };
            index < self.summary.entries(self.current_section).len()
        } else {
            true
        }
    }

    /// The crate whose details the info popup has to fetch first, if any; see
    /// [`info_request`]. In keyword and category sections there is none.
    pub fn show_info_request(&self) -> (r: Option<String>)
        requires
            info_ready(self@),
        ensures
            match r {
                Some(n) => info_request(self@) == Some(n@),
                None => info_request(self@) is None,
            },
    {
        if Summary::lists_crates(self.current_section) {
            let index: usize = match self.state.get(self.current_section).selected() {
                Some(i) => i,
                None => 0,
            };
            let name = &self.summary.entries(self.current_section)[index];
            if self.crates.contains_key(name) {
                None
            } else {
                Some(name.clone())
            }
        } else {
            None
        }
    }

    /// Opens the info popup. `fetched` is the result of fetching the crate
    /// that [`App::show_info_request`] asked for (`None` when nothing was asked
    /// for or the fetch failed); fetched details are cached under the requested
    /// crate's name. See [`info_complete`].
    pub fn show_info_complete(&mut self, fetched: Option<CrateDetails>)
        requires
            info_ready(old(self)@),
        ensures
            final(self)@ == info_complete(old(self)@, fetched),
            final(self).dashboard == old(self).dashboard,
    {
        if let Some(details) = fetched {
            if let Some(name) = self.show_info_request() {
                self.crates.insert(name, details);
            }
        }
        self.show_info_popup = true;
    }

    /// Starts a search; searching is not offered yet, so nothing changes.
    pub fn query(&mut self)
        ensures
            *final(self) == *old(self),
    {
    }
}

} // verus!

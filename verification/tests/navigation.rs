use craters::action::{Action, Event, Key, KeyBindings, KeyCode, KeyMap, CONTROL};
use craters::app::{App, Effect, LoopControl};
use craters::dashboard::Dashboard;
use craters::section::{Mode, SelectedSection};
use craters::selection::{ListSelection, SectionStates};
use craters::summary::{CrateDetails, Summary};

fn names(list: &[&str]) -> Vec<String> {
    list.iter().map(|s| s.to_string()).collect()
}

fn sample_summary() -> Summary {
    Summary {
        num_crates: 3,
        num_downloads: 1000,
        new_crates: names(&["alpha", "beta", "gamma"]),
        most_downloaded: names(&["serde", "syn"]),
        just_updated: names(&["tokio"]),
        most_recently_downloaded: names(&["rand", "libc"]),
        popular_keywords: names(&["async", "cli"]),
        popular_categories: names(&["command-line-utilities"]),
    }
}

fn key(c: char) -> Key {
    Key::plain(KeyCode::Char(c))
}

fn bindings() -> KeyBindings {
    let mut kb = KeyBindings::new();
    kb.insert(Mode::Dashboard, vec![key('x')], Action::Suspend);
    kb.insert(Mode::Dashboard, vec![key('g'), key('g')], Action::Render);
    kb.insert(Mode::Dashboard, vec![Key::with_modifiers(KeyCode::Char('c'), CONTROL)], Action::Quit);
    kb
}

fn sample_app() -> App {
    let summary = sample_summary();
    App::new(bindings(), summary.clone(), Dashboard::new(summary))
}

#[test]
fn section_positions_round_trip() {
    let all = SelectedSection::iter();
    assert_eq!(all.len(), 6);
    for (i, s) in all.iter().enumerate() {
        assert_eq!(s.index(), i);
        assert_eq!(SelectedSection::from_repr(i), Some(*s));
    }
    assert_eq!(SelectedSection::from_repr(6), None);
    assert_eq!(SelectedSection::default(), SelectedSection::NewCrates);
    assert_eq!(Mode::default(), Mode::Dashboard);
}

#[test]
fn next_section_wraps_around() {
    let mut app = sample_app();
    assert_eq!(app.current_section, SelectedSection::NewCrates);
    app.next_section();
    assert_eq!(app.current_section, SelectedSection::MostDownloaded);
    for _ in 0..4 {
        app.next_section();
    }
    assert_eq!(app.current_section, SelectedSection::PopularCategories);
    app.next_section();
    assert_eq!(app.current_section, SelectedSection::NewCrates);
}

#[test]
fn previous_section_wraps_around() {
    let mut app = sample_app();
    app.previous_section();
    assert_eq!(app.current_section, SelectedSection::PopularCategories);
    app.previous_section();
    assert_eq!(app.current_section, SelectedSection::PopularKeywords);
}

#[test]
fn next_then_previous_section_is_identity() {
    let mut app = sample_app();
    for _ in 0..6 {
        let before = app.current_section;
        app.next_section();
        app.previous_section();
        assert_eq!(app.current_section, before);
        app.next_section();
    }
    assert_eq!(app.current_section, SelectedSection::NewCrates);
}

#[test]
fn list_selection_moves_and_saturates() {
    let mut s = ListSelection::new();
    assert_eq!(s.selected(), None);
    s.select_next();
    assert_eq!(s.selected(), Some(0));
    s.select_next();
    assert_eq!(s.selected(), Some(1));
    s.select_previous();
    s.select_previous();
    assert_eq!(s.selected(), Some(0));
    let mut empty = ListSelection::new();
    empty.select_previous();
    assert_eq!(empty.selected(), Some(usize::MAX));
    empty.select_next();
    assert_eq!(empty.selected(), Some(usize::MAX));
    empty.select_first();
    assert_eq!(empty.selected(), Some(0));
}

#[test]
fn clearing_selection_resets_offset() {
    let mut s = ListSelection { offset: 7, selected: Some(9) };
    s.select(Some(3));
    assert_eq!(s, ListSelection { offset: 7, selected: Some(3) });
    s.select(None);
    assert_eq!(s, ListSelection { offset: 0, selected: None });
}

#[test]
fn section_states_set_and_get() {
    let mut states = SectionStates::first_selected();
    for s in SelectedSection::iter() {
        assert_eq!(states.get(s), ListSelection { offset: 0, selected: Some(0) });
    }
    states.set(SelectedSection::JustUpdated, ListSelection { offset: 2, selected: Some(5) });
    assert_eq!(states.get(SelectedSection::JustUpdated), ListSelection { offset: 2, selected: Some(5) });
    assert_eq!(states.get(SelectedSection::NewCrates), ListSelection { offset: 0, selected: Some(0) });
}

#[test]
fn app_selection_acts_on_current_section() {
    let mut app = sample_app();
    app.next_section();
    app.select_next();
    app.select_next();
    assert_eq!(app.state.get(SelectedSection::MostDownloaded).selected(), Some(2));
    assert_eq!(app.state.get(SelectedSection::NewCrates).selected(), Some(0));
    app.select_previous();
    assert_eq!(app.state.get(SelectedSection::MostDownloaded).selected(), Some(1));
    app.select_none();
    assert_eq!(app.state.get(SelectedSection::MostDownloaded), ListSelection { offset: 0, selected: None });
    app.select_first();
    assert_eq!(app.state.get(SelectedSection::MostDownloaded).selected(), Some(0));
}

#[test]
fn keymap_insert_replaces_binding() {
    let mut km = KeyMap::new();
    assert_eq!(km.get(&vec![key('a')]), None);
    km.insert(vec![key('a')], Action::Help);
    km.insert(vec![key('b')], Action::Quit);
    assert_eq!(km.get(&vec![key('a')]), Some(Action::Help));
    km.insert(vec![key('a')], Action::Error("boom".to_string()));
    assert_eq!(km.get(&vec![key('a')]), Some(Action::Error("boom".to_string())));
    assert_eq!(km.get(&vec![key('b')]), Some(Action::Quit));
    assert_eq!(km.bindings.len(), 2);
}

#[test]
fn keybindings_are_per_mode() {
    let kb = bindings();
    assert!(kb.get(Mode::Search).is_none());
    let km = kb.get(Mode::Dashboard).unwrap();
    assert_eq!(km.get(&vec![key('x')]), Some(Action::Suspend));
    assert_eq!(km.get(&vec![key('c')]), None);
    assert_eq!(km.get(&vec![Key::with_modifiers(KeyCode::Char('c'), CONTROL)]), Some(Action::Quit));
}

#[test]
fn single_key_binding_is_sent() {
    let mut app = sample_app();
    assert_eq!(app.handle_key_event(key('x')), Some(Action::Suspend));
    assert!(app.last_tick_key_events.is_empty());
}

#[test]
fn multi_key_sequence_within_a_tick() {
    let mut app = sample_app();
    assert_eq!(app.handle_key_event(key('g')), None);
    assert_eq!(app.last_tick_key_events, vec![key('g')]);
    assert_eq!(app.handle_key_event(key('g')), Some(Action::Render));
    assert_eq!(app.last_tick_key_events, vec![key('g'), key('g')]);
    assert_eq!(app.handle_action(&Action::Tick), Effect::Nothing);
    assert!(app.last_tick_key_events.is_empty());
}

#[test]
fn keys_without_keymap_do_nothing() {
    let summary = sample_summary();
    let mut app = App::new(KeyBindings::new(), summary.clone(), Dashboard::new(summary));
    assert_eq!(app.handle_key_event(key('g')), None);
    assert!(app.last_tick_key_events.is_empty());
}

#[test]
fn events_become_actions() {
    let mut app = sample_app();
    assert_eq!(app.handle_event(&Event::Quit), vec![Action::Quit]);
    assert_eq!(app.handle_event(&Event::Tick), vec![Action::Tick]);
    assert_eq!(app.handle_event(&Event::Render), vec![Action::Render]);
    assert_eq!(app.handle_event(&Event::Resize(80, 24)), vec![Action::Resize(80, 24)]);
    assert_eq!(app.handle_event(&Event::Mouse), Vec::<Action>::new());
    assert_eq!(app.handle_event(&Event::Paste("x".to_string())), Vec::<Action>::new());
    assert_eq!(app.handle_event(&Event::FocusGained), Vec::<Action>::new());
}

#[test]
fn quit_key_always_quits() {
    let mut app = sample_app();
    assert_eq!(app.handle_event(&Event::Key(key('q'))), vec![Action::Quit]);
    assert_eq!(app.handle_event(&Event::Key(Key::plain(KeyCode::Esc))), vec![Action::Quit]);
    let mut kb = KeyBindings::new();
    kb.insert(Mode::Dashboard, vec![key('q')], Action::Quit);
    let summary = sample_summary();
    let mut bound = App::new(kb, summary.clone(), Dashboard::new(summary));
    assert_eq!(bound.handle_event(&Event::Key(key('q'))), vec![Action::Quit, Action::Quit]);
}

#[test]
fn key_event_combines_keymap_and_dashboard() {
    let mut app = sample_app();
    assert_eq!(app.handle_event(&Event::Key(key('i'))), vec![Action::ShowInfo]);
    assert_eq!(app.handle_event(&Event::Key(key('h'))), vec![Action::Help]);
    assert_eq!(app.handle_event(&Event::Key(key('x'))), vec![Action::Suspend]);
}

#[test]
fn actions_change_state_and_ask_terminal() {
    let mut app = sample_app();
    assert_eq!(app.loop_control(), LoopControl::Continue);
    assert_eq!(app.handle_action(&Action::Render), Effect::Render);
    assert_eq!(app.handle_action(&Action::Resize(10, 20)), Effect::Resize(10, 20));
    assert_eq!(app.handle_action(&Action::ClearScreen), Effect::ClearScreen);
    assert_eq!(app.handle_action(&Action::Help), Effect::Nothing);
    assert_eq!(app.handle_action(&Action::ShowInfo), Effect::Nothing);
    assert_eq!(app.loop_control(), LoopControl::Continue);
    assert_eq!(app.handle_action(&Action::Suspend), Effect::Nothing);
    assert_eq!(app.loop_control(), LoopControl::Suspend);
    assert_eq!(app.handle_action(&Action::Quit), Effect::Nothing);
    assert_eq!(app.loop_control(), LoopControl::Suspend);
    for a in App::resume_actions() {
        app.handle_action(&a);
    }
    assert_eq!(app.loop_control(), LoopControl::Quit);
    assert_eq!(App::resume_actions(), vec![Action::Resume, Action::ClearScreen]);
}

#[test]
fn new_app_starts_on_dashboard() {
    let app = sample_app();
    assert_eq!(app.mode, Mode::Dashboard);
    assert!(!app.should_quit && !app.should_suspend && !app.search && !app.show_info_popup);
    assert_eq!(app.crates.len(), 0);
    for s in SelectedSection::iter() {
        assert_eq!(app.state.get(s).selected(), Some(0));
    }
}

fn details(name: &str) -> CrateDetails {
    CrateDetails {
        name: name.to_string(),
        description: Some("a crate".to_string()),
        keywords: None,
        max_version: "1.0.0".to_string(),
    }
}

#[test]
fn show_info_requests_selected_crate_once() {
    let mut app = sample_app();
    app.select_next();
    assert_eq!(app.show_info_request(), Some("beta".to_string()));
    app.show_info_complete(Some(details("beta")));
    assert!(app.show_info_popup);
    assert!(app.crates.contains_key(&"beta".to_string()));
    assert_eq!(app.show_info_request(), None);
    app.select_next();
    assert_eq!(app.show_info_request(), Some("gamma".to_string()));
}

#[test]
fn show_info_keeps_cached_details() {
    let mut app = sample_app();
    assert_eq!(app.show_info_request(), Some("alpha".to_string()));
    app.show_info_complete(Some(details("alpha")));
    let mut other = details("alpha");
    other.max_version = "9.9.9".to_string();
    app.show_info_complete(Some(other));
    assert_eq!(app.crates.len(), 1);
    assert_eq!(app.crates.get(&"alpha".to_string()).unwrap().max_version, "1.0.0");
}

#[test]
fn show_info_ignores_keyword_sections() {
    let mut app = sample_app();
    for _ in 0..4 {
        app.next_section();
    }
    assert_eq!(app.current_section, SelectedSection::PopularKeywords);
    assert_eq!(app.show_info_request(), None);
    app.show_info_complete(Some(details("async")));
    assert!(app.show_info_popup);
    assert_eq!(app.crates.len(), 0);
}

#[test]
fn show_info_uses_first_entry_without_selection() {
    let mut app = sample_app();
    app.select_none();
    assert_eq!(app.show_info_request(), Some("alpha".to_string()));
}

#[test]
fn show_info_ready_checks_selection() {
    let mut app = sample_app();
    assert!(app.show_info_ready());
    app.select_next();
    app.select_next();
    assert!(app.show_info_ready());
    app.select_next();
    assert!(!app.show_info_ready());
    app.next_section();
    app.next_section();
    app.next_section();
    app.next_section();
    app.select_next();
    app.select_next();
    app.select_next();
    assert_eq!(app.current_section, SelectedSection::PopularKeywords);
    assert!(app.show_info_ready());
}

#[test]
fn failed_fetch_opens_popup_without_caching() {
    let mut app = sample_app();
    app.show_info_complete(None);
    assert!(app.show_info_popup);
    assert_eq!(app.crates.len(), 0);
    assert_eq!(app.show_info_request(), Some("alpha".to_string()));
}

use craters::action::{Action, Event, Key, KeyCode, ALT, SHIFT};
use craters::dashboard::{Alignment, BorderSet, Color, Dashboard, SpanStyle};
use craters::info_popup::{InfoPopup, PopupLine};
use craters::layout::Rect;
use craters::section::SelectedSection;
use craters::selection::ListSelection;
use craters::summary::{copy_strings, CrateDetails, Summary};

fn names(list: &[&str]) -> Vec<String> {
    list.iter().map(|s| s.to_string()).collect()
}

fn summary() -> Summary {
    Summary {
        num_crates: 10,
        num_downloads: 99,
        new_crates: names(&["fresh"]),
        most_downloaded: names(&["serde", "syn", "quote"]),
        just_updated: names(&["tokio", "hyper"]),
        most_recently_downloaded: names(&["rand"]),
        popular_keywords: names(&["async", "cli", "web"]),
        popular_categories: names(&["no-std", "parsing"]),
    }
}

#[test]
fn dashboard_blocks_in_drawing_order() {
    let d = Dashboard::new(summary());
    let blocks = d.blocks();
    let titles: Vec<&str> = blocks.iter().map(|b| b.title.as_str()).collect();
    assert_eq!(
        titles,
        vec![
            "New Crates",
            "Most Downloaded",
            "Just Updated",
            "Recent Downloads",
            "Popular Keywords",
            "Popular Categories"
        ]
    );
    assert_eq!(blocks[1].items, names(&["serde", "syn", "quote"]));
    assert_eq!(blocks[4].items, names(&["async", "cli", "web"]));
    assert_eq!(blocks[5].items, names(&["no-std", "parsing"]));
    let borders: Vec<BorderSet> = blocks.iter().map(|b| b.border).collect();
    assert_eq!(
        borders,
        vec![BorderSet::Plain, BorderSet::Empty, BorderSet::Empty, BorderSet::Empty, BorderSet::Empty, BorderSet::Empty]
    );
}

#[test]
fn block_highlight_follows_current_section() {
    let mut d = Dashboard::new(summary());
    d.current_section = SelectedSection::JustUpdated;
    let b = d.create_block("Anything", SelectedSection::JustUpdated);
    assert_eq!(b.border, BorderSet::Plain);
    assert_eq!(b.title, "Anything");
    assert_eq!(b.items, names(&["tokio", "hyper"]));
    assert_eq!(d.create_new_crates_area().border, BorderSet::Empty);
    assert_eq!(d.create_recent_downloads().items, names(&["rand"]));
    assert_eq!(d.create_popular_categories().title, "Popular Categories");
}

#[test]
fn main_area_title_and_hints() {
    let d = Dashboard::new(summary());
    let m = d.create_main_area();
    assert_eq!(m.title, " crates.io ");
    let texts: Vec<&str> = m.instructions.iter().map(|s| s.text.as_str()).collect();
    assert_eq!(texts, vec![" Search ", "s", " Info ", "i", " Quit ", "q "]);
    assert_eq!(m.instructions[1].style, SpanStyle::BoldBlue);
    assert_eq!(m.instructions[0].style, SpanStyle::Plain);
}

#[test]
fn dashboard_keys() {
    let d = Dashboard::new(summary());
    assert_eq!(d.handle_key_event(Key::plain(KeyCode::Char('q'))), Some(Action::Quit));
    assert_eq!(d.handle_key_event(Key::plain(KeyCode::Esc)), Some(Action::Quit));
    assert_eq!(d.handle_key_event(Key::plain(KeyCode::Char('i'))), Some(Action::ShowInfo));
    assert_eq!(d.handle_key_event(Key::with_modifiers(KeyCode::Char('h'), ALT)), Some(Action::Help));
    assert_eq!(d.handle_key_event(Key::plain(KeyCode::Char('s'))), None);
    assert_eq!(d.handle_key_event(Key::plain(KeyCode::Enter)), None);
    assert_eq!(d.handle_events(Some(&Event::Key(Key::plain(KeyCode::Char('q'))))), Some(Action::Quit));
    assert_eq!(d.handle_events(Some(&Event::Tick)), None);
    assert_eq!(d.handle_events(None), None);
}

#[test]
fn dashboard_update_does_nothing() {
    let mut d = Dashboard::new(summary());
    assert_eq!(d.update(&Action::Tick), None);
    assert_eq!(d.update(&Action::Render), None);
    assert_eq!(d.update(&Action::Quit), None);
    assert_eq!(d.current_section, SelectedSection::NewCrates);
}

#[test]
fn copy_strings_keeps_order() {
    let v = names(&["a", "b", "c"]);
    assert_eq!(copy_strings(&v), v);
    assert_eq!(copy_strings(&Vec::new()), Vec::<String>::new());
}

fn tokio_details() -> CrateDetails {
    CrateDetails {
        name: "tokio".to_string(),
        description: Some("An event-driven runtime".to_string()),
        keywords: Some(names(&["io", "async"])),
        max_version: "1.40.0".to_string(),
    }
}

#[test]
fn crate_info_text() {
    let popup = InfoPopup::new("tokio", tokio_details());
    assert_eq!(popup.title, "tokio");
    let text = popup.format_crate_info(&popup.content);
    let header: Vec<(&str, SpanStyle)> = text.header.iter().map(|s| (s.text.as_str(), s.style)).collect();
    assert_eq!(
        header,
        vec![("tokio", SpanStyle::BoldCyan), ("    v", SpanStyle::Plain), ("1.40.0", SpanStyle::Plain)]
    );
    assert_eq!(text.description, "An event-driven runtime");
    let tags: Vec<(&str, SpanStyle)> = text.tags.iter().map(|s| (s.text.as_str(), s.style)).collect();
    assert_eq!(
        tags,
        vec![
            ("#io", SpanStyle::Green),
            ("    ", SpanStyle::Plain),
            ("#async", SpanStyle::Green),
            ("    ", SpanStyle::Plain)
        ]
    );
}

#[test]
fn crate_info_text_without_description_or_keywords() {
    let bare = CrateDetails {
        name: "bare".to_string(),
        description: None,
        keywords: None,
        max_version: "0.1.0".to_string(),
    };
    let popup = InfoPopup::new("bare", bare);
    let text = popup.content_text();
    assert_eq!(text.description, "No description");
    assert!(text.tags.is_empty());
    assert_eq!(text.header[0].text, "bare");
    let empty_keywords = CrateDetails { keywords: Some(Vec::new()), ..popup.content.clone() };
    assert!(popup.format_crate_info(&empty_keywords).tags.is_empty());
}

#[test]
fn popup_area_is_centered() {
    let area = Rect::new(0, 0, 100, 50);
    let inner = InfoPopup::popup_area(area, 60, 60);
    assert_eq!(inner, Rect::new(20, 10, 60, 30));
    assert_ne!(inner, area);
}

#[test]
fn dashboard_layout_grid() {
    let d = Dashboard::new(summary());
    let area = Rect::new(0, 0, 99, 40);
    let [row1, row2] = d.create_layout(area);
    for row in [row1, row2] {
        let total: u32 = row.iter().map(|r| r.width as u32).sum();
        assert_eq!(total, 99);
        assert_eq!(row[0].x, 0);
        assert_eq!(row[1].x, row[0].width);
        assert_eq!(row[2].x, row[0].width + row[1].width);
        assert!(row[0].height >= 13);
        assert_eq!(row[0].height, row[1].height);
    }
    assert_eq!(row1[0].y, 0);
    assert_eq!(row2[0].y, row1[0].height);
    assert_ne!(row1[0], area);
}

#[test]
fn popup_lines_with_blank_separators() {
    let popup = InfoPopup::new("tokio", tokio_details());
    let lines = popup.content_lines();
    assert_eq!(lines.len(), 5);
    match &lines[0] {
        PopupLine::Spans(spans) => assert_eq!(spans[0].text, "tokio"),
        PopupLine::Text(_) => panic!("header should be spans"),
    }
    for i in [1, 3] {
        match &lines[i] {
            PopupLine::Text(t) => assert_eq!(t, ""),
            PopupLine::Spans(_) => panic!("separator should be text"),
        }
    }
    match &lines[2] {
        PopupLine::Text(t) => assert_eq!(t, "An event-driven runtime"),
        PopupLine::Spans(_) => panic!("description should be text"),
    }
    match &lines[4] {
        PopupLine::Spans(spans) => assert_eq!(spans.len(), 4),
        PopupLine::Text(_) => panic!("tags should be spans"),
    }
}

#[test]
fn panel_styles() {
    let d = Dashboard::new(summary());
    let b = d.create_most_downloaded();
    assert_eq!(b.title_style, SpanStyle::BoldBlue);
    assert_eq!(b.selected_style, SpanStyle::BoldCyan);
    assert_eq!(b.title_alignment, Alignment::Left);
    assert_eq!(b.background, Color::Black);
    assert_eq!(b.foreground, Color::White);
    let m = d.create_main_area();
    assert_eq!(m.title_style, SpanStyle::Bold);
    assert_eq!(m.title_color, Color::White);
    assert_eq!(m.title_alignment, Alignment::Center);
    assert_eq!(m.instructions_alignment, Alignment::Center);
    assert_eq!(m.border, BorderSet::Thick);
    assert_eq!((m.background, m.foreground), (Color::Black, Color::White));
}

#[test]
fn recent_downloads_panel_exactly() {
    let mut s = summary();
    s.most_recently_downloaded = names(&["b"]);
    let d = Dashboard::new(s);
    let b = d.create_block("Recent Downloads", SelectedSection::RecentDownloads);
    assert_eq!(b.title, "Recent Downloads");
    assert_eq!(b.items, names(&["b"]));
    assert_eq!(b.border, BorderSet::Empty);
    assert_eq!(b.title_style, SpanStyle::BoldBlue);
    assert_eq!(b.title_alignment, Alignment::Left);
    assert_eq!(b.background, Color::Black);
    assert_eq!(b.foreground, Color::White);
    assert_eq!(b.selected_style, SpanStyle::BoldCyan);
}

#[test]
fn content_area_inside_border() {
    let d = Dashboard::new(summary());
    assert_eq!(d.content_area(Rect::new(0, 0, 100, 40)), Rect::new(1, 1, 98, 38));
    assert_eq!(d.content_area(Rect::new(5, 5, 1, 0)), Rect::new(6, 5, 0, 0));
    assert_eq!(d.content_area(Rect::new(65535, 3, 0, 2)), Rect::new(65535, 4, 0, 0));
}

#[test]
fn panels_pair_sections_cells_and_selections() {
    let mut d = Dashboard::new(summary());
    d.state.set(SelectedSection::PopularKeywords, ListSelection { offset: 1, selected: Some(2) });
    let area = Rect::new(1, 1, 98, 38);
    let panels = d.panels(area);
    let [row1, row2] = d.create_layout(area);
    assert_eq!(panels.len(), 6);
    let sections: Vec<SelectedSection> = panels.iter().map(|p| p.section).collect();
    assert_eq!(sections, SelectedSection::iter());
    for j in 0..3 {
        assert_eq!(panels[j].area, row1[j]);
        assert_eq!(panels[j + 3].area, row2[j]);
    }
    assert_eq!(panels[4].selection, ListSelection { offset: 1, selected: Some(2) });
    assert_eq!(panels[0].selection, ListSelection { offset: 0, selected: Some(0) });
    assert_eq!(panels[4].block.title, "Popular Keywords");
}

#[test]
fn shifted_letters_are_normalised() {
    assert_eq!(Key::with_modifiers(KeyCode::Char('a'), SHIFT), Key { code: KeyCode::Char('A'), modifiers: SHIFT });
    assert_eq!(Key::plain(KeyCode::Char('Q')), Key { code: KeyCode::Char('Q'), modifiers: SHIFT });
    assert_eq!(Key::with_modifiers(KeyCode::Char('1'), SHIFT), Key { code: KeyCode::Char('1'), modifiers: SHIFT });
    assert_eq!(Key::with_modifiers(KeyCode::Enter, SHIFT), Key { code: KeyCode::Enter, modifiers: SHIFT });
}

#[test]
fn popup_frame_and_placement() {
    let popup = InfoPopup::new("tokio", tokio_details());
    let look = popup.frame();
    assert_eq!((look.background, look.foreground, look.trim), (Color::Black, Color::White, true));
    assert_eq!(InfoPopup::placement(Rect::new(0, 0, 100, 50)), Rect::new(20, 10, 60, 30));
}

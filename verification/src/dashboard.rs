use vstd::prelude::*;

use crate::action::{Action, Event, Key, KeyCode};
use crate::layout::{
    bordered_inner, bordered_inner_spec, grid_from_rows, layout_outcome, lies_within, split_area, split_part_of,
    Constraint, Direction, Flex, Rect,
};
use crate::section::{all_sections, SelectedSection};
use crate::selection::{ListSelection, SectionStates};
use crate::summary::{copy_strings, section_entries, CrateCache, Summary};

verus! {

/// The height of one dashboard panel: ten list lines, two border lines and a
/// title line.
pub const BLOCK_HEIGHT: u16 = 13;

/// The row constraints of the dashboard: two rows of at least `BLOCK_HEIGHT`
/// cells, then a row for what is left.
pub open spec fn dashboard_rows() -> Seq<Constraint> {
    seq![Constraint::Min(BLOCK_HEIGHT), Constraint::Min(BLOCK_HEIGHT), Constraint::Min(0)]
}

/// The column constraints of a dashboard row: 33%, 34% and 33% of its width.
pub open spec fn dashboard_columns() -> Seq<Constraint> {
    seq![Constraint::Percentage(33), Constraint::Percentage(34), Constraint::Percentage(33)]
}

/// How a piece of text is drawn.
#[derive(Debug, Clone, Copy, PartialEq, Eq, Structural, Hash)]
pub enum SpanStyle {
    Plain,
    Bold,
    BoldBlue,
    BoldCyan,
    Green,
}

/// A piece of text and how it is drawn.
#[derive(Debug, Clone, PartialEq, Eq)]
pub struct StyledSpan {
    pub text: String,
    pub style: SpanStyle,
}

/// The text and style of a span.
pub open spec fn span_view(s: StyledSpan) -> (Seq<char>, SpanStyle) {
    (s.text@, s.style)
}

/// The spans of a line as text and style pairs.
pub open spec fn spans_view(v: Seq<StyledSpan>) -> Seq<(Seq<char>, SpanStyle)> {
    v.map_values(|s: StyledSpan| span_view(s))
}

/// A span of the given text and style.
pub fn styled(text: &str, style: SpanStyle) -> (r: StyledSpan)
    ensures
        r.text@ == text@,
        r.style == style,
{
    StyledSpan { text: String::from_str(text), style }
}

/// A colour of the dashboard. `Black` is pure black (red, green and blue all
/// zero), not the terminal's own black.
#[derive(Debug, Clone, Copy, PartialEq, Eq, Structural, Hash)]
pub enum Color {
    Black,
    White,
}

/// Where a title sits on its border line.
#[derive(Debug, Clone, Copy, PartialEq, Eq, Structural, Hash)]
pub enum Alignment {
    Left,
    Center,
}

/// The symbols a frame's border is drawn with.
#[derive(Debug, Clone, Copy, PartialEq, Eq, Structural, Hash)]
pub enum BorderSet {
    /// Thin lines.
    Plain,
    /// Blanks: the border takes its place but shows nothing.
    Empty,
    /// Thick lines.
    Thick,
}

/// One dashboard panel, a bordered list: its title with the title's style and
/// alignment, its border symbols, its background, the colour of its entries,
/// the entries, and the style of the selected entry.
#[derive(Debug, Clone)]
pub struct SectionBlock {
    pub title: String,
    pub title_style: SpanStyle,
    pub title_alignment: Alignment,
    pub border: BorderSet,
    pub background: Color,
    pub foreground: Color,
    pub items: Vec<String>,
    pub selected_style: SpanStyle,
}

/// The outer frame of the dashboard: its title with the title's style, colour
/// and alignment, the key hints at the bottom with their alignment, the
/// border symbols, and the background and foreground colours.
#[derive(Debug, Clone)]
pub struct MainArea {
    pub title: String,
    pub title_style: SpanStyle,
    pub title_color: Color,
    pub title_alignment: Alignment,
    pub instructions: Vec<StyledSpan>,
    pub instructions_alignment: Alignment,
    pub border: BorderSet,
    pub background: Color,
    pub foreground: Color,
}

/// Whether `row1` and `row2` are the panel rows the layout solver can give
/// for the dashboard area `area`: the two upper rows of a split of `area` by
/// the row constraints, each split by the column constraints.
pub open spec fn dashboard_grid(area: Rect, row1: Seq<Rect>, row2: Seq<Rect>) -> bool {
    exists|rows: Seq<Rect>|
        #![trigger layout_outcome(area, Direction::Vertical, dashboard_rows(), Flex::Start, rows)]
        {
            &&& rows.len() == 3
            &&& layout_outcome(area, Direction::Vertical, dashboard_rows(), Flex::Start, rows)
            &&& layout_outcome(rows[0], Direction::Horizontal, dashboard_columns(), Flex::Start, row1)
            &&& layout_outcome(rows[1], Direction::Horizontal, dashboard_columns(), Flex::Start, row2)
        }
}

/// One panel as it is drawn: its section, its list, where it goes, and the
/// selection of its list.
#[derive(Debug, Clone)]
pub struct Panel {
    pub section: SelectedSection,
    pub block: SectionBlock,
    pub area: Rect,
    pub selection: ListSelection,
}

/// The border of a panel: thin lines on the current section, blanks elsewhere.
pub open spec fn panel_border(highlighted: bool) -> BorderSet {
    if highlighted { BorderSet::Plain } else { BorderSet::Empty }
}

/// The title of the panel that shows section `s`.
pub open spec fn section_title(s: SelectedSection) -> Seq<char> {
    match s {
        SelectedSection::NewCrates => "New Crates"@,
        SelectedSection::MostDownloaded => "Most Downloaded"@,
        SelectedSection::JustUpdated => "Just Updated"@,
        SelectedSection::RecentDownloads => "Recent Downloads"@,
        SelectedSection::PopularKeywords => "Popular Keywords"@,
        SelectedSection::PopularCategories => "Popular Categories"@,
    }
}

/// The title of the panel that shows section `s`.
pub fn title_of(s: SelectedSection) -> (r: &'static str)
    ensures
        r@ == section_title(s),
{
    match s {
        SelectedSection::NewCrates => "New Crates",
        SelectedSection::MostDownloaded => "Most Downloaded",
        SelectedSection::JustUpdated => "Just Updated",
        SelectedSection::RecentDownloads => "Recent Downloads",
        SelectedSection::PopularKeywords => "Popular Keywords",
        SelectedSection::PopularCategories => "Popular Categories",
    }
}

/// The key hints shown at the bottom of the dashboard.
pub open spec fn instruction_spans() -> Seq<(Seq<char>, SpanStyle)> {
    seq![
        (" Search "@, SpanStyle::Plain),
        ("s"@, SpanStyle::BoldBlue),
        (" Info "@, SpanStyle::Plain),
        ("i"@, SpanStyle::BoldBlue),
        (" Quit "@, SpanStyle::Plain),
        ("q "@, SpanStyle::BoldBlue),
    ]
}

/// The action the dashboard takes for a key press, whatever the modifiers.
pub open spec fn dashboard_key_action(key: Key) -> Option<Action> {
    match key.code {
        KeyCode::Char('q') | KeyCode::Esc => Some(Action::Quit),
        KeyCode::Char('i') => Some(Action::ShowInfo),
        KeyCode::Char('h') => Some(Action::Help),
        _ => None,
    }
}

/// The dashboard answers exactly `q` and Esc with quitting, exactly `i` with
/// the info popup and exactly `h` with help, whatever the modifiers, and
/// every other key with nothing.
pub proof fn lemma_dashboard_keys(key: Key)
    ensures
        dashboard_key_action(key) == Some(Action::Quit) <==> (key.code == KeyCode::Char('q') || key.code
            == KeyCode::Esc),
        dashboard_key_action(key) == Some(Action::ShowInfo) <==> key.code == KeyCode::Char('i'),
        dashboard_key_action(key) == Some(Action::Help) <==> key.code == KeyCode::Char('h'),
        dashboard_key_action(key) is None <==> !(key.code == KeyCode::Char('q') || key.code == KeyCode::Esc
            || key.code == KeyCode::Char('i') || key.code == KeyCode::Char('h')),
{
}

/// Any panel grid the dashboard lays out is the solver's answer for two rows
/// of at least 13 cells over a row for the rest, each of the two panel rows
/// split into columns of 33%, 34% and 33% of its width, all packed from the
/// start.
pub proof fn lemma_dashboard_grid_constraints(area: Rect, row1: Seq<Rect>, row2: Seq<Rect>)
    requires
        dashboard_grid(area, row1, row2),
    ensures
        exists|rows: Seq<Rect>|
            #![trigger layout_outcome(area, Direction::Vertical, Seq::empty().push(Constraint::Min(13)).push(Constraint::Min(13)).push(Constraint::Min(0)), Flex::Start, rows)]
            {
                &&& rows.len() == 3
                &&& layout_outcome(
                    area,
                    Direction::Vertical,
                    Seq::empty().push(Constraint::Min(13)).push(Constraint::Min(13)).push(Constraint::Min(0)),
                    Flex::Start,
                    rows,
                )
                &&& layout_outcome(
                    rows[0],
                    Direction::Horizontal,
                    Seq::empty().push(Constraint::Percentage(33)).push(Constraint::Percentage(34)).push(Constraint::Percentage(33)),
                    Flex::Start,
                    row1,
                )
                &&& layout_outcome(
                    rows[1],
                    Direction::Horizontal,
                    Seq::empty().push(Constraint::Percentage(33)).push(Constraint::Percentage(34)).push(Constraint::Percentage(33)),
                    Flex::Start,
                    row2,
                )
            },
{
    let rows = choose|rows: Seq<Rect>|
        {
            &&& rows.len() == 3
            &&& layout_outcome(area, Direction::Vertical, dashboard_rows(), Flex::Start, rows)
            &&& layout_outcome(rows[0], Direction::Horizontal, dashboard_columns(), Flex::Start, row1)
            &&& layout_outcome(rows[1], Direction::Horizontal, dashboard_columns(), Flex::Start, row2)
        };
    let lr = Seq::empty().push(Constraint::Min(13)).push(Constraint::Min(13)).push(Constraint::Min(0));
    let lc = Seq::empty().push(Constraint::Percentage(33)).push(Constraint::Percentage(34)).push(
        Constraint::Percentage(33),
    );
    assert(dashboard_rows() =~= lr);
    assert(dashboard_columns() =~= lc);
    assert(layout_outcome(area, Direction::Vertical, lr, Flex::Start, rows));
    assert(layout_outcome(rows[0], Direction::Horizontal, lc, Flex::Start, row1));
    assert(layout_outcome(rows[1], Direction::Horizontal, lc, Flex::Start, row2));
}

/// The dashboard panel set: six lists drawn from a registry summary.
#[derive(Debug, Clone)]
pub struct Dashboard {
    pub summary: Summary,
    pub current_section: SelectedSection,
    pub state: SectionStates,
    pub crates: CrateCache,
}

impl Dashboard {
    /// Whether `b` is the panel of section `section` with title `title`: the
    /// title in bold blue on the left, thin border lines on the current
    /// section and blank ones elsewhere, a black background, the section's
    /// entries in order in white, the selected entry in bold cyan.
    pub open spec fn is_block(self, b: SectionBlock, title: Seq<char>, section: SelectedSection) -> bool {
        &&& b.title@ == title
        &&& b.title_style == SpanStyle::BoldBlue
        &&& b.title_alignment == Alignment::Left
        &&& b.border == panel_border(section == self.current_section)
        &&& b.background == Color::Black
        &&& b.foreground == Color::White
        &&& b.items@ == section_entries(self.summary, section)
        &&& b.selected_style == SpanStyle::BoldCyan
    }

    /// A dashboard over `summary`, focused on the first section, with the first
    /// entry of every list selected and no crate details fetched.
    pub fn new(summary: Summary) -> (r: Dashboard)
        ensures
            r.summary == summary,
            r.current_section == SelectedSection::NewCrates,
            r.state == SectionStates::first_selected_spec(),
            r.crates.pairs().len() == 0,
    {
        Dashboard {
            summary,
            current_section: SelectedSection::default(),
            state: SectionStates::first_selected(),
            crates: CrateCache::new(),
        }
    }

    /// The two rows of three panels the dashboard area is split into. The
    /// layout solver is asked for two rows of at least `BLOCK_HEIGHT` cells and
    /// a third row for what is left, and for each of the first two rows, for
    /// three columns of 33%, 34% and 33% of its width.
    ///
    /// The rows are an outcome of the solver for `area` and the row
    /// constraints, and each row of panels an outcome for its row and the
    /// column constraints. Each panel lies inside `area`, and the three panels
    /// of a row share its top edge and height.
    pub fn create_layout(&self, area: Rect) -> (r: [[Rect; 3]; 2])
        ensures
            dashboard_grid(area, r[0]@, r[1]@),
            forall|k: int, j: int| 0 <= k < 2 && 0 <= j < 3 ==> lies_within(#[trigger] r[k][j], area),
            forall|k: int, j: int|
                0 <= k < 2 && 0 <= j < 3 ==> (#[trigger] r[k][j]).y == r[k][0].y && r[k][j].height
                    == r[k][0].height,
    {
        let mut row_constraints: Vec<Constraint> = Vec::new();
        row_constraints.push(Constraint::Min(BLOCK_HEIGHT));
        row_constraints.push(Constraint::Min(BLOCK_HEIGHT));
        row_constraints.push(Constraint::Min(0));
        assert(row_constraints@ =~= dashboard_rows());
        let rows = split_area(area, Direction::Vertical, &row_constraints, Flex::Start);
        let mut column_constraints: Vec<Constraint> = Vec::new();
        column_constraints.push(Constraint::Percentage(33));
        column_constraints.push(Constraint::Percentage(34));
        column_constraints.push(Constraint::Percentage(33));
        assert(column_constraints@ =~= dashboard_columns());
        let row1 = split_area(rows[0], Direction::Horizontal, &column_constraints, Flex::Start);
        let row2 = split_area(rows[1], Direction::Horizontal, &column_constraints, Flex::Start);
        let grid = grid_from_rows(&row1, &row2);
        proof {
            assert(layout_outcome(area, Direction::Vertical, dashboard_rows(), Flex::Start, rows@));
            assert(dashboard_grid(area, grid[0]@, grid[1]@));
            assert(split_part_of(area, Direction::Vertical, rows@[1]));
            assert forall|k: int, j: int| 0 <= k < 2 && 0 <= j < 3 implies lies_within(#[trigger] grid[k][j], area)
                && grid[k][j].y == grid[k][0].y && grid[k][j].height == grid[k][0].height by {
                if k == 0 {
                    assert(grid[0][j] == row1@[j]);
                    assert(split_part_of(rows@[0], Direction::Horizontal, row1@[j]));
                    assert(split_part_of(rows@[0], Direction::Horizontal, row1@[0]));
                } else {
                    assert(grid[1][j] == row2@[j]);
                    assert(split_part_of(rows@[1], Direction::Horizontal, row2@[j]));
                    assert(split_part_of(rows@[1], Direction::Horizontal, row2@[0]));
                }
            }
        }
        grid
    }

    /// The outer frame: thick border lines, the title " crates.io " in bold
    /// white centred at the top, the key hints centred at the bottom, white
    /// on black.
    pub fn create_main_area(&self) -> (r: MainArea)
        ensures
            r.title@ == " crates.io "@,
            r.title_style == SpanStyle::Bold,
            r.title_color == Color::White,
            r.title_alignment == Alignment::Center,
            r.instructions_alignment == Alignment::Center,
            r.border == BorderSet::Thick,
            r.background == Color::Black,
            r.foreground == Color::White,
            spans_view(r.instructions@) == instruction_spans(),
    {
        let mut instructions: Vec<StyledSpan> = Vec::new();
        instructions.push(styled(" Search ", SpanStyle::Plain));
        instructions.push(styled("s", SpanStyle::BoldBlue));
        instructions.push(styled(" Info ", SpanStyle::Plain));
        instructions.push(styled("i", SpanStyle::BoldBlue));
        instructions.push(styled(" Quit ", SpanStyle::Plain));
        instructions.push(styled("q ", SpanStyle::BoldBlue));
        let r = MainArea {
            title: String::from_str(" crates.io "),
            title_style: SpanStyle::Bold,
            title_color: Color::White,
            title_alignment: Alignment::Center,
            instructions,
            instructions_alignment: Alignment::Center,
            border: BorderSet::Thick,
            background: Color::Black,
            foreground: Color::White,
        };
        assert(spans_view(r.instructions@) =~= instruction_spans());
        r
    }

    /// The panel of section `section` titled `title`; see [`Dashboard::is_block`].
    pub fn create_block(&self, title: &str, section: SelectedSection) -> (r: SectionBlock)
        ensures
            self.is_block(r, title@, section),
    {
        let highlighted = section == self.current_section;
        let items = copy_strings(self.summary.entries(section));
        let border = if highlighted { BorderSet::Plain } else { BorderSet::Empty };
        SectionBlock {
            title: String::from_str(title),
            title_style: SpanStyle::BoldBlue,
            title_alignment: Alignment::Left,
            border,
            background: Color::Black,
            foreground: Color::White,
            items,
            selected_style: SpanStyle::BoldCyan,
        }
    }

    /// The "New Crates" panel.
    pub fn create_new_crates_area(&self) -> (r: SectionBlock)
        ensures
            self.is_block(r, "New Crates"@, SelectedSection::NewCrates),
    {
        self.create_block("New Crates", SelectedSection::NewCrates)
    }

    /// The "Most Downloaded" panel.
    pub fn create_most_downloaded(&self) -> (r: SectionBlock)
        ensures
            self.is_block(r, "Most Downloaded"@, SelectedSection::MostDownloaded),
    {
        self.create_block("Most Downloaded", SelectedSection::MostDownloaded)
    }

    /// The "Just Updated" panel.
    pub fn create_just_updated_area(&self) -> (r: SectionBlock)
        ensures
            self.is_block(r, "Just Updated"@, SelectedSection::JustUpdated),
    {
        self.create_block("Just Updated", SelectedSection::JustUpdated)
    }

    /// The "Recent Downloads" panel.
    pub fn create_recent_downloads(&self) -> (r: SectionBlock)
        ensures
            self.is_block(r, "Recent Downloads"@, SelectedSection::RecentDownloads),
    {
        self.create_block("Recent Downloads", SelectedSection::RecentDownloads)
    }

    /// The "Popular Keywords" panel.
    pub fn create_popular_keywords(&self) -> (r: SectionBlock)
        ensures
            self.is_block(r, "Popular Keywords"@, SelectedSection::PopularKeywords),
    {
        self.create_block("Popular Keywords", SelectedSection::PopularKeywords)
    }

    /// The "Popular Categories" panel.
    pub fn create_popular_categories(&self) -> (r: SectionBlock)
        ensures
            self.is_block(r, "Popular Categories"@, SelectedSection::PopularCategories),
    {
        self.create_block("Popular Categories", SelectedSection::PopularCategories)
    }

    /// All six panels in drawing order: the first row holds new crates, most
    /// downloaded and just updated, the second recent downloads, popular
    /// keywords and popular categories.
    pub fn blocks(&self) -> (r: Vec<SectionBlock>)
        ensures
            r@.len() == 6,
            forall|i: int|
                0 <= i < 6 ==> self.is_block(
                    #[trigger] r@[i],
                    section_title(all_sections()[i]),
                    all_sections()[i],
                ),
    {
        let mut r: Vec<SectionBlock> = Vec::new();
        r.push(self.create_new_crates_area());
        r.push(self.create_most_downloaded());
        r.push(self.create_just_updated_area());
        r.push(self.create_recent_downloads());
        r.push(self.create_popular_keywords());
        r.push(self.create_popular_categories());
        r
    }

    /// The area inside the outer frame, where the panels go: one cell in from
    /// each side of `area`.
    pub fn content_area(&self, area: Rect) -> (r: Rect)
        ensures
            r == bordered_inner_spec(area),
    {
        bordered_inner(area)
    }

    /// The six panels as they are drawn into the dashboard area `area`: in
    /// the order of [`Dashboard::blocks`], the first three in the first panel
    /// row from left to right, the last three in the second, each with the
    /// dashboard's selection for its section.
    pub fn panels(&self, area: Rect) -> (r: Vec<Panel>)
        ensures
            r@.len() == 6,
            forall|i: int|
                0 <= i < 6 ==> {
                    &&& (#[trigger] r@[i]).section == all_sections()[i]
                    &&& self.is_block(r@[i].block, section_title(all_sections()[i]), all_sections()[i])
                    &&& r@[i].selection == self.state.at(all_sections()[i])
                },
            exists|row1: Seq<Rect>, row2: Seq<Rect>|
                #![trigger dashboard_grid(area, row1, row2)]
                {
                    &&& dashboard_grid(area, row1, row2)
                    &&& row1.len() == 3
                    &&& row2.len() == 3
                    &&& forall|j: int| 0 <= j < 3 ==> r@[j].area == row1[j] && r@[j + 3].area == row2[j]
                },
    {
        let grid = self.create_layout(area);
        let sections = SelectedSection::iter();
        let cells = [grid[0][0], grid[0][1], grid[0][2], grid[1][0], grid[1][1], grid[1][2]];
        let mut r: Vec<Panel> = Vec::new();
        for i in 0..6
            invariant
                sections@ == all_sections(),
                cells@ == seq![grid[0][0], grid[0][1], grid[0][2], grid[1][0], grid[1][1], grid[1][2]],
                r@.len() == i,
                forall|k: int|
                    0 <= k < i ==> {
                        &&& (#[trigger] r@[k]).section == all_sections()[k]
                        &&& self.is_block(r@[k].block, section_title(all_sections()[k]), all_sections()[k])
                        &&& r@[k].selection == self.state.at(all_sections()[k])
                        &&& r@[k].area == cells@[k]
                    },
        {
            let section = sections[i];
            let block = self.create_block(title_of(section), section);
            r.push(Panel { section, block, area: cells[i], selection: self.state.get(section) });
        }
        proof {
            let row1 = grid[0]@;
            let row2 = grid[1]@;
            assert(dashboard_grid(area, row1, row2));
            assert forall|j: int| 0 <= j < 3 implies r@[j].area == row1[j] && r@[j + 3].area == row2[j] by {
                assert(r@[j].area == cells@[j]);
                assert(r@[j + 3].area == cells@[j + 3]);
            }
        }
        r
    }

    /// The action for a key press: `q` or Esc quits, `i` shows crate info,
    /// `h` asks for help; other keys do nothing.
    pub fn handle_key_event(&self, key: Key) -> (r: Option<Action>)
        ensures
            r == dashboard_key_action(key),
    {
        match key.code {
            KeyCode::Char('q') | KeyCode::Esc => Some(Action::Quit),
            KeyCode::Char('i') => Some(Action::ShowInfo),
            KeyCode::Char('h') => Some(Action::Help),
            _ => None,
        }
    }

    /// The action for a terminal event: key presses go to
    /// [`Dashboard::handle_key_event`]; every other event is ignored.
    pub fn handle_events(&self, event: Option<&Event>) -> (r: Option<Action>)
        ensures
            r == match event {
                Some(Event::Key(k)) => dashboard_key_action(*k),
                _ => None,
            },
    {
        match event {
            Some(Event::Key(k)) => self.handle_key_event(*k),
            _ => None,
        }
    }

    /// The dashboard's reaction to an action: none, whatever the action.
    pub fn update(&mut self, action: &Action) -> (r: Option<Action>)
        ensures
            r is None,
            *final(self) == *old(self),
    {
        None
    }
}

} // verus!

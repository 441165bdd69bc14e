use vstd::prelude::*;

use crate::dashboard::{spans_view, styled, Color, SpanStyle, StyledSpan};
use crate::layout::{layout_outcome, lies_within, split_area, split_part_of, Constraint, Direction, Flex, Rect};
use crate::summary::CrateDetails;

verus! {

/// The text of the crate info popup: a header line, the description, and a
/// line of keyword tags. The popup shows them with an empty line between
/// each.
#[derive(Debug, Clone)]
pub struct CrateInfoText {
    pub header: Vec<StyledSpan>,
    pub description: String,
    pub tags: Vec<StyledSpan>,
}

/// The header line: the crate name in bold cyan, then " v" and the highest
/// version after four spaces.
pub open spec fn header_spans(krate: CrateDetails) -> Seq<(Seq<char>, SpanStyle)> {
    seq![(krate.name@, SpanStyle::BoldCyan), ("    v"@, SpanStyle::Plain), (krate.max_version@, SpanStyle::Plain)]
}

/// The description line: the crate's description, or "No description".
pub open spec fn description_text(krate: CrateDetails) -> Seq<char> {
    match krate.description {
        Some(d) => d@,
        None => "No description"@,
    }
}

/// The tag line: each keyword as "#keyword" in green, followed by four spaces.
pub open spec fn tag_spans(keywords: Seq<String>) -> Seq<(Seq<char>, SpanStyle)> {
    Seq::new(
        2 * keywords.len(),
        |i: int|
            if i % 2 == 0 {
                ("#"@ + keywords[i / 2]@, SpanStyle::Green)
            } else {
                ("    "@, SpanStyle::Plain)
            },
    )
}

/// The tag line of a crate; a crate without keywords has an empty one.
pub open spec fn crate_tag_spans(krate: CrateDetails) -> Seq<(Seq<char>, SpanStyle)> {
    match krate.keywords {
        Some(ks) => tag_spans(ks@),
        None => Seq::empty(),
    }
}

/// The tag line has one "#keyword" span in green for every keyword, in
/// order, each followed by four spaces in plain style, and nothing else; a
/// crate without keywords has an empty tag line.
pub proof fn lemma_tags_cover_every_keyword(krate: CrateDetails)
    ensures
        krate.keywords is None ==> crate_tag_spans(krate).len() == 0,
        krate.keywords matches Some(ks) ==> {
            &&& crate_tag_spans(krate).len() == 2 * ks@.len()
            &&& forall|i: int|
                0 <= i < ks@.len() ==> {
                    &&& #[trigger] crate_tag_spans(krate)[2 * i] == ("#"@ + ks@[i]@, SpanStyle::Green)
                    &&& crate_tag_spans(krate)[2 * i + 1] == ("    "@, SpanStyle::Plain)
                }
        },
{
    if let Some(ks) = krate.keywords {
        assert forall|i: int| 0 <= i < ks@.len() implies {
            &&& #[trigger] crate_tag_spans(krate)[2 * i] == ("#"@ + ks@[i]@, SpanStyle::Green)
            &&& crate_tag_spans(krate)[2 * i + 1] == ("    "@, SpanStyle::Plain)
        } by {
            assert((2 * i) % 2 == 0 && (2 * i) / 2 == i) by (nonlinear_arith);
            assert((2 * i + 1) % 2 == 1) by (nonlinear_arith);
        }
    }
}

/// One line of the popup: styled spans, or plain text (which the terminal
/// toolkit breaks at line ends).
#[derive(Debug, Clone)]
pub enum PopupLine {
    Spans(Vec<StyledSpan>),
    Text(String),
}

/// A popup line as the contracts see it.
pub enum PopupLineView {
    Spans(Seq<(Seq<char>, SpanStyle)>),
    Text(Seq<char>),
}

/// The view of a popup line.
pub open spec fn line_view(l: PopupLine) -> PopupLineView {
    match l {
        PopupLine::Spans(v) => PopupLineView::Spans(spans_view(v@)),
        PopupLine::Text(t) => PopupLineView::Text(t@),
    }
}

/// The lines of the popup for a crate: the header, an empty line, the
/// description, an empty line, and the tags.
pub open spec fn popup_lines(krate: CrateDetails) -> Seq<PopupLineView> {
    seq![
        PopupLineView::Spans(header_spans(krate)),
        PopupLineView::Text(Seq::empty()),
        PopupLineView::Text(description_text(krate)),
        PopupLineView::Text(Seq::empty()),
        PopupLineView::Spans(crate_tag_spans(krate)),
    ]
}

impl CrateInfoText {
    /// The five lines the popup shows: the header, an empty line, the
    /// description, an empty line, and the tags.
    pub fn into_lines(self) -> (r: Vec<PopupLine>)
        ensures
            r@.map_values(|l: PopupLine| line_view(l)) == seq![
                PopupLineView::Spans(spans_view(self.header@)),
                PopupLineView::Text(Seq::empty()),
                PopupLineView::Text(self.description@),
                PopupLineView::Text(Seq::empty()),
                PopupLineView::Spans(spans_view(self.tags@)),
            ],
    {
        let ghost old = self;
        let mut r: Vec<PopupLine> = Vec::new();
        r.push(PopupLine::Spans(self.header));
        r.push(PopupLine::Text(String::new()));
        r.push(PopupLine::Text(self.description));
        r.push(PopupLine::Text(String::new()));
        r.push(PopupLine::Spans(self.tags));
        assert(r@.map_values(|l: PopupLine| line_view(l)) =~= seq![
            PopupLineView::Spans(spans_view(old.header@)),
            PopupLineView::Text(Seq::empty()),
            PopupLineView::Text(old.description@),
            PopupLineView::Text(Seq::empty()),
            PopupLineView::Spans(spans_view(old.tags@)),
        ]);
        r
    }
}

/// Whether `r` is a place the layout solver can give for a popup taking
/// `percent_x` percent of the width and `percent_y` percent of the height of
/// `area`, centred both ways: the row is an outcome for `area` and
/// `percent_y`, and the popup an outcome for that row and `percent_x`.
pub open spec fn popup_placement(area: Rect, percent_x: u16, percent_y: u16, r: Rect) -> bool {
    exists|rows: Seq<Rect>|
        #![trigger layout_outcome(area, Direction::Vertical, seq![Constraint::Percentage(percent_y)], Flex::Center, rows)]
        {
            &&& rows.len() == 1
            &&& layout_outcome(area, Direction::Vertical, seq![Constraint::Percentage(percent_y)], Flex::Center, rows)
            &&& layout_outcome(
                rows[0],
                Direction::Horizontal,
                seq![Constraint::Percentage(percent_x)],
                Flex::Center,
                seq![r],
            )
        }
}

/// How the popup frame is drawn: a bordered box in the given colours, its
/// text wrapped at the box's width, with leading blanks of wrapped lines
/// trimmed when `trim` is set.
#[derive(Debug, Clone, Copy, PartialEq, Eq, Structural, Hash)]
pub struct PopupFrame {
    pub background: Color,
    pub foreground: Color,
    pub trim: bool,
}

/// The share of the screen's width and height the popup takes, in percent.
pub const POPUP_PERCENT: u16 = 60;

/// A popup that shows the details of a crate.
#[derive(Debug, Clone)]
pub struct InfoPopup {
    pub title: String,
    pub content: CrateDetails,
}

impl InfoPopup {
    /// A popup titled `title` showing `content`.
    pub fn new(title: &str, content: CrateDetails) -> (r: InfoPopup)
        ensures
            r.title@ == title@,
            r.content == content,
    {
        InfoPopup { title: String::from_str(title), content }
    }

    /// The text the popup shows for `krate`.
    pub fn format_crate_info(&self, krate: &CrateDetails) -> (r: CrateInfoText)
        ensures
            spans_view(r.header@) == header_spans(*krate),
            r.description@ == description_text(*krate),
            spans_view(r.tags@) == crate_tag_spans(*krate),
    {
        let description = match &krate.description {
            Some(d) => d.clone(),
            None => String::from_str("No description"),
        };
        let mut tags: Vec<StyledSpan> = Vec::new();
        match &krate.keywords {
            Some(keywords) => {
                let n = keywords.len();
                for i in 0..n
                    invariant
                        n == keywords@.len(),
                        spans_view(tags@) == tag_spans(keywords@.subrange(0, i as int)),
                {
                    let ghost before = spans_view(tags@);
                    let ghost old_tags = tags@;
                    assert(spans_view(old_tags).len() == old_tags.len());
                    assert(keywords@.subrange(0, i as int).len() == i);
                    assert(tag_spans(keywords@.subrange(0, i as int)).len() == 2 * i);
                    assert(old_tags.len() == 2 * i);
                    let tag = String::from_str("#").concat(keywords[i].as_str());
                    tags.push(StyledSpan { text: tag, style: SpanStyle::Green });
                    tags.push(styled("    ", SpanStyle::Plain));
                    proof {
                        let done = keywords@.subrange(0, i as int);
                        let next = keywords@.subrange(0, i + 1);
                        assert forall|j: int| 0 <= j < 2 * (i + 1) implies #[trigger] spans_view(tags@)[j]
                            == tag_spans(next)[j] by {
                            if j < 2 * i {
                                assert(j / 2 < i) by (nonlinear_arith)
                                    requires
                                        0 <= j < 2 * i,
                                ;
                                assert(j / 2 >= 0) by (nonlinear_arith)
                                    requires
                                        0 <= j,
                                ;
                                assert(tags@[j] == old_tags[j]);
                                assert(spans_view(tags@)[j] == before[j]);
                                assert(done[j / 2] == next[j / 2]);
                            } else if j == 2 * i {
                                assert((2 * i) % 2 == 0 && (2 * i) / 2 == i) by (nonlinear_arith);
                            } else {
                                assert((2 * i + 1) % 2 == 1) by (nonlinear_arith);
                            }
                        }
                        assert(spans_view(tags@) =~= tag_spans(next));
                    }
                }
                assert(keywords@.subrange(0, n as int) =~= keywords@);
            },
            None => {
                assert(spans_view(tags@) =~= Seq::<(Seq<char>, SpanStyle)>::empty());
            },
        }
        let mut header: Vec<StyledSpan> = Vec::new();
        header.push(StyledSpan { text: krate.name.clone(), style: SpanStyle::BoldCyan });
        header.push(styled("    v", SpanStyle::Plain));
        header.push(StyledSpan { text: krate.max_version.clone(), style: SpanStyle::Plain });
        assert(spans_view(header@) =~= header_spans(*krate));
        CrateInfoText { header, description, tags }
    }

    /// The text this popup shows for its own crate.
    pub fn content_text(&self) -> (r: CrateInfoText)
        ensures
            spans_view(r.header@) == header_spans(self.content),
            r.description@ == description_text(self.content),
            spans_view(r.tags@) == crate_tag_spans(self.content),
    {
        self.format_crate_info(&self.content)
    }

    /// How the popup frame is drawn: white on black, wrapped and trimmed.
    pub fn frame(&self) -> (r: PopupFrame)
        ensures
            r == (PopupFrame { background: Color::Black, foreground: Color::White, trim: true }),
    {
        PopupFrame { background: Color::Black, foreground: Color::White, trim: true }
    }

    /// Where the popup goes on a screen `area`: 60% of its width and height,
    /// centred.
    pub fn placement(area: Rect) -> (r: Rect)
        ensures
            popup_placement(area, POPUP_PERCENT, POPUP_PERCENT, r),
            lies_within(r, area),
    {
        InfoPopup::popup_area(area, POPUP_PERCENT, POPUP_PERCENT)
    }

    /// The lines this popup shows for its own crate.
    pub fn content_lines(&self) -> (r: Vec<PopupLine>)
        ensures
            r@.map_values(|l: PopupLine| line_view(l)) == popup_lines(self.content),
    {
        self.content_text().into_lines()
    }

    /// The area of `area` the popup covers: the layout solver is asked for
    /// `percent_y` percent of its height and `percent_x` percent of its width,
    /// centered both ways. The popup is an outcome of the solver for the row
    /// it picks and `percent_x`, that row an outcome for `area` and
    /// `percent_y`, and the popup lies inside `area`.
    pub fn popup_area(area: Rect, percent_x: u16, percent_y: u16) -> (r: Rect)
        ensures
            popup_placement(area, percent_x, percent_y, r),
            lies_within(r, area),
    {
        let mut vertical: Vec<Constraint> = Vec::new();
        vertical.push(Constraint::Percentage(percent_y));
        assert(vertical@ =~= seq![Constraint::Percentage(percent_y)]);
        let rows = split_area(area, Direction::Vertical, &vertical, Flex::Center);
        let mut horizontal: Vec<Constraint> = Vec::new();
        horizontal.push(Constraint::Percentage(percent_x));
        assert(horizontal@ =~= seq![Constraint::Percentage(percent_x)]);
        let columns = split_area(rows[0], Direction::Horizontal, &horizontal, Flex::Center);
        proof {
            assert(split_part_of(area, Direction::Vertical, rows@[0]));
            assert(split_part_of(rows@[0], Direction::Horizontal, columns@[0]));
            assert(columns@ =~= seq![columns@[0]]);
            assert(layout_outcome(area, Direction::Vertical, seq![Constraint::Percentage(percent_y)], Flex::Center, rows@));
        }
        columns[0]
    }
}

} // verus!

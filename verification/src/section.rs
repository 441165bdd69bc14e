use vstd::prelude::*;

verus! {

/// The number of dashboard sections.
pub const SECTION_COUNT: usize = 6;

/// One of the six panels of the dashboard.
///
/// The order of the variants is the navigation order used by
/// [`crate::app::App::next_section`] and [`crate::app::App::previous_section`].
#[derive(Debug, Clone, Copy, PartialEq, Eq, Structural, Hash)]
pub enum SelectedSection {
    NewCrates,
    MostDownloaded,
    JustUpdated,
    RecentDownloads,
    PopularKeywords,
    PopularCategories,
}

/// The position of a section in navigation order.
pub open spec fn section_position(s: SelectedSection) -> nat {
    match s {
        SelectedSection::NewCrates => 0,
        SelectedSection::MostDownloaded => 1,
        SelectedSection::JustUpdated => 2,
        SelectedSection::RecentDownloads => 3,
        SelectedSection::PopularKeywords => 4,
        SelectedSection::PopularCategories => 5,
    }
}

/// The section at a position, if the position is below the section count.
pub open spec fn section_at(i: int) -> Option<SelectedSection> {
    if i == 0 {
        Some(SelectedSection::NewCrates)
    } else if i == 1 {
        Some(SelectedSection::MostDownloaded)
    } else if i == 2 {
        Some(SelectedSection::JustUpdated)
    } else if i == 3 {
        Some(SelectedSection::RecentDownloads)
    } else if i == 4 {
        Some(SelectedSection::PopularKeywords)
    } else if i == 5 {
        Some(SelectedSection::PopularCategories)
    } else {
        None
    }
}

/// All sections, in navigation order.
pub open spec fn all_sections() -> Seq<SelectedSection> {
    seq![
        SelectedSection::NewCrates,
        SelectedSection::MostDownloaded,
        SelectedSection::JustUpdated,
        SelectedSection::RecentDownloads,
        SelectedSection::PopularKeywords,
        SelectedSection::PopularCategories,
    ]
}

/// The section that follows `s`, wrapping from the last back to the first.
pub open spec fn section_after(s: SelectedSection) -> SelectedSection {
    section_at(((section_position(s) + 1) % 6) as int).unwrap()
}

/// The section that precedes `s`, wrapping from the first to the last.
pub open spec fn section_before(s: SelectedSection) -> SelectedSection {
    if section_position(s) == 0 {
        section_at(5).unwrap()
    } else {
        section_at(section_position(s) - 1).unwrap()
    }
}

impl SelectedSection {
    /// The position of this section in navigation order (its discriminant).
    pub fn index(self) -> (r: usize)
        ensures
            r == section_position(self),
            r < SECTION_COUNT,
    {
        match self {
            SelectedSection::NewCrates => 0,
            SelectedSection::MostDownloaded => 1,
            SelectedSection::JustUpdated => 2,
            SelectedSection::RecentDownloads => 3,
            SelectedSection::PopularKeywords => 4,
            SelectedSection::PopularCategories => 5,
        }
    }

    /// The section whose position is `i`; `None` when `i` is not below the
    /// section count.
    pub fn from_repr(i: usize) -> (r: Option<SelectedSection>)
        ensures
            r == section_at(i as int),
            r is Some <==> i < SECTION_COUNT,
            r matches Some(s) ==> section_position(s) == i,
    {
        if i == 0 {
            Some(SelectedSection::NewCrates)
        } else if i == 1 {
            Some(SelectedSection::MostDownloaded)
        } else if i == 2 {
            Some(SelectedSection::JustUpdated)
        } else if i == 3 {
            Some(SelectedSection::RecentDownloads)
        } else if i == 4 {
            Some(SelectedSection::PopularKeywords)
        } else if i == 5 {
            Some(SelectedSection::PopularCategories)
        } else {
            None
        }
    }

    /// All sections in navigation order.
    pub fn iter() -> (r: Vec<SelectedSection>)
        ensures
            r@ == all_sections(),
    {
        let mut v: Vec<SelectedSection> = Vec::new();
        v.push(SelectedSection::NewCrates);
        v.push(SelectedSection::MostDownloaded);
        v.push(SelectedSection::JustUpdated);
        v.push(SelectedSection::RecentDownloads);
        v.push(SelectedSection::PopularKeywords);
        v.push(SelectedSection::PopularCategories);
        v
    }
}

impl Default for SelectedSection {
    fn default() -> (r: SelectedSection)
        ensures
            r == SelectedSection::NewCrates,
    {
        SelectedSection::NewCrates
    }
}

/// Every position below the section count names exactly one section, and a
/// section's position leads back to it.
pub proof fn lemma_position_roundtrip(s: SelectedSection)
    ensures
        section_position(s) < SECTION_COUNT,
        section_at(section_position(s) as int) == Some(s),
        all_sections()[section_position(s) as int] == s,
{
}

/// Moving to the next section and then to the previous one returns to the
/// starting section, and so does the reverse.
pub proof fn lemma_next_previous_inverse(s: SelectedSection)
    ensures
        section_before(section_after(s)) == s,
        section_after(section_before(s)) == s,
{
}

/// Moving forward six times visits every section once and returns to the start.
pub proof fn lemma_next_cycles(s: SelectedSection)
    ensures
        section_after(section_after(section_after(section_after(section_after(section_after(s))))))
            == s,
        section_before(section_before(section_before(section_before(section_before(section_before(s))))))
            == s,
{
}

/// Sections are visited in the order new crates, most downloaded, just
/// updated, recent downloads, popular keywords, popular categories: the next
/// section is the one after in this order (the first after the last), the
/// previous one the one before (the last before the first), and moving
/// forward adds one to a section's position modulo six, moving back five.
pub proof fn lemma_navigation_order(i: int, s: SelectedSection)
    requires
        0 <= i < 6,
    ensures
        ({
            let order = seq![
                SelectedSection::NewCrates,
                SelectedSection::MostDownloaded,
                SelectedSection::JustUpdated,
                SelectedSection::RecentDownloads,
                SelectedSection::PopularKeywords,
                SelectedSection::PopularCategories,
            ];
            &&& section_after(order[i]) == order[(i + 1) % 6]
            &&& section_before(order[i]) == order[(i + 5) % 6]
        }),
        section_position(section_after(s)) == (section_position(s) + 1) % 6,
        section_position(section_before(s)) == (section_position(s) + 5) % 6,
{
}

/// Two different sections never move to the same next section.
pub proof fn lemma_next_injective(a: SelectedSection, b: SelectedSection)
    ensures
        section_after(a) == section_after(b) ==> a == b,
        section_before(a) == section_before(b) ==> a == b,
{
}

/// The dashboard's input mode.
#[derive(Debug, Clone, Copy, PartialEq, Eq, Structural, Hash)]
pub enum Mode {
    Dashboard,
    Search,
    Info,
}

impl Default for Mode {
    fn default() -> (r: Mode)
        ensures
            r == Mode::Dashboard,
    {
        Mode::Dashboard
    }
}

} // verus!

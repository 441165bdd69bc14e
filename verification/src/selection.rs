use vstd::prelude::*;

use crate::section::SelectedSection;

verus! {

/// The selection state of one list: which item is selected and how far the
/// list has been scrolled.
///
/// This follows the selection rules of the terminal toolkit's list state: the
/// index is not bounded by the number of items, since that number is only known
/// when the list is drawn, where the index is corrected.
#[derive(Debug, Clone, Copy, PartialEq, Eq, Structural)]
pub struct ListSelection {
    pub offset: usize,
    pub selected: Option<usize>,
}

/// The index that `select_next` moves to from `sel`.
pub open spec fn next_index(sel: Option<usize>) -> usize {
    match sel {
        None => 0,
        Some(i) => if i == usize::MAX { usize::MAX } else { (i + 1) as usize },
    }
}

/// The index that `select_previous` moves to from `sel`.
pub open spec fn previous_index(sel: Option<usize>) -> usize {
    match sel {
        None => usize::MAX,
        Some(i) => if i == 0 { 0 } else { (i - 1) as usize },
    }
}

/// The state after selecting `index` in `s`: clearing the selection also
/// scrolls back to the top.
pub open spec fn select_spec(s: ListSelection, index: Option<usize>) -> ListSelection {
    ListSelection {
        offset: if index is None { 0 } else { s.offset },
        selected: index,
    }
}

impl ListSelection {
    /// A list scrolled to the top with nothing selected.
    pub fn new() -> (r: ListSelection)
        ensures
            r.offset == 0,
            r.selected is None,
    {
        ListSelection { offset: 0, selected: None }
    }

    /// The selected index, if any.
    pub fn selected(&self) -> (r: Option<usize>)
        ensures
            r == self.selected,
    {
        self.selected
    }

    /// Selects `index`; `None` clears the selection and scrolls to the top.
    pub fn select(&mut self, index: Option<usize>)
        ensures
            *final(self) == select_spec(*old(self), index),
    {
        self.selected = index;
        if index.is_none() {
            self.offset = 0;
        }
    }

    /// Selects the next item, or the first one when nothing is selected.
    pub fn select_next(&mut self)
        ensures
            *final(self) == select_spec(*old(self), Some(next_index(old(self).selected))),
    {
        let next: usize = match self.selected {
            None => 0,
            Some(i) => i.saturating_add(1),
        };
        self.select(Some(next));
    }

    /// Selects the previous item, or the last one when nothing is selected.
    pub fn select_previous(&mut self)
        ensures
            *final(self) == select_spec(*old(self), Some(previous_index(old(self).selected))),
    {
        let previous: usize = match self.selected {
            None => usize::MAX,
            Some(i) => i.saturating_sub(1),
        };
        self.select(Some(previous));
    }

    /// Selects the first item.
    pub fn select_first(&mut self)
        ensures
            *final(self) == select_spec(*old(self), Some(0)),
    {
        self.select(Some(0));
    }
}

/// Selecting the next item and then the previous one returns to the item that
/// was selected, unless the index was already at its upper bound.
pub proof fn lemma_next_then_previous(s: ListSelection)
    requires
        s.selected matches Some(i) && i < usize::MAX,
    ensures
        select_spec(
            select_spec(s, Some(next_index(s.selected))),
            Some(previous_index(select_spec(s, Some(next_index(s.selected))).selected)),
        ) == s,
{
}

/// Selecting the previous item and then the next one returns to the item that
/// was selected, unless it was the first item.
pub proof fn lemma_previous_then_next(s: ListSelection)
    requires
        s.selected matches Some(i) && i > 0,
    ensures
        select_spec(
            select_spec(s, Some(previous_index(s.selected))),
            Some(next_index(select_spec(s, Some(previous_index(s.selected))).selected)),
        ) == s,
{
}

/// Selecting never changes the scroll offset unless the selection is cleared.
pub proof fn lemma_select_keeps_offset(s: ListSelection, index: Option<usize>)
    ensures
        index is Some ==> select_spec(s, index).offset == s.offset,
        index is None ==> select_spec(s, index).offset == 0,
        select_spec(s, index).selected == index,
{
}

/// One list selection per dashboard section.
#[derive(Debug, Clone, Copy, PartialEq, Eq, Structural)]
pub struct SectionStates {
    pub new_crates: ListSelection,
    pub most_downloaded: ListSelection,
    pub just_updated: ListSelection,
    pub recent_downloads: ListSelection,
    pub popular_keywords: ListSelection,
    pub popular_categories: ListSelection,
}

impl SectionStates {
    /// The selection of section `s`.
    pub open spec fn at(self, s: SelectedSection) -> ListSelection {
        match s {
            SelectedSection::NewCrates => self.new_crates,
            SelectedSection::MostDownloaded => self.most_downloaded,
            SelectedSection::JustUpdated => self.just_updated,
            SelectedSection::RecentDownloads => self.recent_downloads,
            SelectedSection::PopularKeywords => self.popular_keywords,
            SelectedSection::PopularCategories => self.popular_categories,
        }
    }

    /// Every section scrolled to the top with its first item selected.
    pub open spec fn first_selected_spec() -> SectionStates {
        let first = ListSelection { offset: 0, selected: Some(0) };
        SectionStates {
            new_crates: first,
            most_downloaded: first,
            just_updated: first,
            recent_downloads: first,
            popular_keywords: first,
            popular_categories: first,
        }
    }

    /// Every section scrolled to the top with its first item selected.
    pub fn first_selected() -> (r: SectionStates)
        ensures
            r == SectionStates::first_selected_spec(),
            forall|s: SelectedSection|
                #[trigger] r.at(s) == (ListSelection { offset: 0, selected: Some(0) }),
    {
        let mut first = ListSelection::new();
        first.select(Some(0));
        SectionStates {
            new_crates: first,
            most_downloaded: first,
            just_updated: first,
            recent_downloads: first,
            popular_keywords: first,
            popular_categories: first,
        }
    }

    /// The selection of section `s`.
    pub fn get(&self, s: SelectedSection) -> (r: ListSelection)
        ensures
            r == self.at(s),
    {
        match s {
            SelectedSection::NewCrates => self.new_crates,
            SelectedSection::MostDownloaded => self.most_downloaded,
            SelectedSection::JustUpdated => self.just_updated,
            SelectedSection::RecentDownloads => self.recent_downloads,
            SelectedSection::PopularKeywords => self.popular_keywords,
            SelectedSection::PopularCategories => self.popular_categories,
        }
    }

    /// Replaces the selection of section `s`, leaving the others unchanged.
    pub fn set(&mut self, s: SelectedSection, sel: ListSelection)
        ensures
            *final(self) == set_spec(*old(self), s, sel),
            final(self).at(s) == sel,
            forall|t: SelectedSection| t != s ==> #[trigger] final(self).at(t) == old(self).at(t),
    {
        match s {
            SelectedSection::NewCrates => self.new_crates = sel,
            SelectedSection::MostDownloaded => self.most_downloaded = sel,
            SelectedSection::JustUpdated => self.just_updated = sel,
            SelectedSection::RecentDownloads => self.recent_downloads = sel,
            SelectedSection::PopularKeywords => self.popular_keywords = sel,
            SelectedSection::PopularCategories => self.popular_categories = sel,
        }
    }
}

/// Reading a section's selection gives back what was last written there, and
/// writing one section leaves every other section as it was.
pub proof fn lemma_set_then_at(states: SectionStates, s: SelectedSection, sel: ListSelection, t: SelectedSection)
    ensures
        ({
            let written = set_spec(states, s, sel);
            &&& written.at(s) == sel
            &&& t != s ==> written.at(t) == states.at(t)
        }),
{
}

/// The sections' selections after section `s` is given `sel`.
pub open spec fn set_spec(states: SectionStates, s: SelectedSection, sel: ListSelection) -> SectionStates {
    match s {
        SelectedSection::NewCrates => SectionStates { new_crates: sel, ..states },
        SelectedSection::MostDownloaded => SectionStates { most_downloaded: sel, ..states },
        SelectedSection::JustUpdated => SectionStates { just_updated: sel, ..states },
        SelectedSection::RecentDownloads => SectionStates { recent_downloads: sel, ..states },
        SelectedSection::PopularKeywords => SectionStates { popular_keywords: sel, ..states },
        SelectedSection::PopularCategories => SectionStates { popular_categories: sel, ..states },
    }
}

} // verus!

//! Loading more stories, refreshing, and filtering the board by epic.
use crate::api::{Epic, Story, StoryView, Workflow};
use crate::git::operations::all_states;
use crate::timekeeping::unix_now;
use crate::ui::app::{add_new_ids, append_new_ids, board_groups, of_epic, stories_of_epic, App};
use crate::ui::board::{
    board_stories, flatten_groups, flatten_states, on_board, sort_by_position, sort_stories_by_position,
    StoryGroups,
};
use vstd::prelude::*;

verus! {

/// The board and the list shown for the loaded stories under an epic
/// filter (see `board_groups`).
pub fn filtered_board(unfiltered: &Vec<Story>, epic: Option<i64>, workflows: &Vec<Workflow>) -> (r: (
    StoryGroups,
    Vec<Story>,
))
    ensures
        r.0@ == board_groups(of_epic(unfiltered.deep_view(), epic), all_states(workflows.deep_view())),
        r.1.deep_view() == sort_by_position(flatten_groups(r.0@)),
{
    let states = flatten_states(workflows);
    let shown = stories_of_epic(unfiltered, epic);
    let mut groups = StoryGroups::from_stories(&shown);
    groups.sort_each();
    groups.limit_done(&states);
    let list = sort_stories_by_position(groups.flatten());
    (groups, list)
}

/// The loaded stories with those of a new page added: the new page's
/// stories that stay on the board at `now` and whose ids are not loaded yet.
pub fn merged_stories(base: Vec<Story>, new_stories: Vec<Story>, workflows: &Vec<Workflow>, now: i64) -> (r: Vec<
    Story,
>)
    ensures
        r.deep_view() == add_new_ids(
            base.deep_view(),
            on_board(new_stories.deep_view(), all_states(workflows.deep_view()), now as int),
        ),
{
    let states = flatten_states(workflows);
    let kept = board_stories(new_stories, &states, now);
    let mut base = base;
    append_new_ids(&mut base, &kept);
    base
}

/// The epic filter chosen in the epic selector: none for "all stories",
/// the epic's id for an epic, and the current filter when the choice lies
/// beyond the epics.
pub open spec fn chosen_filter(index: usize, epics: Seq<Epic>, current: Option<i64>) -> Option<i64> {
    if index == 0 {
        None
    } else if index <= epics.len() {
        Some(epics[index - 1].id)
    } else {
        current
    }
}

impl App {
    /// Shows the loaded stories that pass the epic filter, grouped into the
    /// columns and listed by position, with the selection back at the start.
    #[verifier::spinoff_prover]
    pub fn apply_epic_filter(&mut self)
        ensures
            final(self).shows_filtered(old(self).all_stories_unfiltered.deep_view()),
            *final(self) == (App {
                stories_by_state: final(self).stories_by_state,
                all_stories_list: final(self).all_stories_list,
                total_loaded_stories: final(self).total_loaded_stories,
                selected_column: 0,
                selected_row: 0,
                list_selected_index: 0,
                list_scroll_offset: 0,
                ..*old(self)
            }),
    {
        proof {
            reveal(App::shows_filtered);
        }
        let (groups, list) = filtered_board(&self.all_stories_unfiltered, self.selected_epic_filter, &self.workflows);
        let total = list.len();
        self.stories_by_state = groups;
        self.all_stories_list = list;
        self.total_loaded_stories = total;
        self.selected_column = 0;
        self.selected_row = 0;
        self.list_selected_index = 0;
        self.list_scroll_offset = 0;
    }

    /// Adds a page of stories at the time `now`: of the page's stories that
    /// stay on the board, those whose ids are new join the loaded stories;
    /// the board is shown again under the epic filter; the next page's
    /// token is recorded and loading ends.
    #[verifier::spinoff_prover]
    pub fn merge_stories_at(&mut self, new_stories: Vec<Story>, next_page_token: Option<String>, now: i64)
        ensures
            final(self).shows_filtered(
                add_new_ids(
                    old(self).all_stories_unfiltered.deep_view(),
                    on_board(new_stories.deep_view(), old(self).states(), now as int),
                ),
            ),
            *final(self) == (App {
                all_stories_unfiltered: final(self).all_stories_unfiltered,
                stories_by_state: final(self).stories_by_state,
                all_stories_list: final(self).all_stories_list,
                total_loaded_stories: final(self).total_loaded_stories,
                selected_column: 0,
                selected_row: 0,
                list_selected_index: 0,
                list_scroll_offset: 0,
                next_page_token: next_page_token,
                is_loading: false,
                load_more_requested: false,
                ..*old(self)
            }),
    {
        proof {
            reveal(App::shows_filtered);
        }
        let mut base: Vec<Story> = Vec::new();
        std::mem::swap(&mut base, &mut self.all_stories_unfiltered);
        let unfiltered = merged_stories(base, new_stories, &self.workflows, now);
        let (groups, list) = filtered_board(&unfiltered, self.selected_epic_filter, &self.workflows);
        let total = list.len();
        self.all_stories_unfiltered = unfiltered;
        self.stories_by_state = groups;
        self.all_stories_list = list;
        self.total_loaded_stories = total;
        self.selected_column = 0;
        self.selected_row = 0;
        self.list_selected_index = 0;
        self.list_scroll_offset = 0;
        self.next_page_token = next_page_token;
        self.is_loading = false;
        self.load_more_requested = false;
    }

    /// Adds a page of stories, judged at the current time (see
    /// `merge_stories_at`).
    pub fn merge_stories(&mut self, new_stories: Vec<Story>, next_page_token: Option<String>)
        ensures
            exists|now: i64|
                final(self).shows_filtered(
                    add_new_ids(
                        old(self).all_stories_unfiltered.deep_view(),
                        on_board(new_stories.deep_view(), old(self).states(), now as int),
                    ),
                ),
            *final(self) == (App {
                all_stories_unfiltered: final(self).all_stories_unfiltered,
                stories_by_state: final(self).stories_by_state,
                all_stories_list: final(self).all_stories_list,
                total_loaded_stories: final(self).total_loaded_stories,
                selected_column: 0,
                selected_row: 0,
                list_selected_index: 0,
                list_scroll_offset: 0,
                next_page_token: next_page_token,
                is_loading: false,
                load_more_requested: false,
                ..*old(self)
            }),
    {
        let now = unix_now();
        self.merge_stories_at(new_stories, next_page_token, now);
    }

    /// Asks for the next page, unless there is none or one is loading.
    #[verifier::spinoff_prover]
    pub fn request_load_more(&mut self)
        ensures
            *final(self) == (if old(self).next_page_token.is_some() && !old(self).is_loading {
                App { load_more_requested: true, is_loading: true, ..*old(self) }
            } else {
                *old(self)
            }),
    {
        if self.next_page_token.is_some() && !self.is_loading {
            self.load_more_requested = true;
            self.is_loading = true;
        }
    }

    /// Whether there is a next page.
    pub fn has_more_stories(&self) -> (r: bool)
        ensures
            r == self.next_page_token.is_some(),
    {
        self.next_page_token.is_some()
    }

    /// Asks for the stories to be loaded again from the first page: drops
    /// the loaded stories and the next page's token, and puts the selection
    /// back at the start.
    #[verifier::spinoff_prover]
    pub fn refresh_stories(&mut self)
        ensures
            final(self).stories_by_state@.len() == 0,
            final(self).all_stories_list@.len() == 0,
            final(self).all_stories_unfiltered@.len() == 0,
            *final(self) == (App {
                refresh_requested: true,
                is_loading: true,
                stories_by_state: final(self).stories_by_state,
                all_stories_list: final(self).all_stories_list,
                all_stories_unfiltered: final(self).all_stories_unfiltered,
                total_loaded_stories: 0,
                next_page_token: None,
                selected_column: 0,
                selected_row: 0,
                list_selected_index: 0,
                list_scroll_offset: 0,
                ..*old(self)
            }),
    {
        let groups = StoryGroups::new();
        let list: Vec<Story> = Vec::new();
        let unfiltered: Vec<Story> = Vec::new();
        self.refresh_requested = true;
        self.is_loading = true;
        self.stories_by_state = groups;
        self.all_stories_list = list;
        self.all_stories_unfiltered = unfiltered;
        self.total_loaded_stories = 0;
        self.next_page_token = None;
        self.selected_column = 0;
        self.selected_row = 0;
        self.list_selected_index = 0;
        self.list_scroll_offset = 0;
    }

    /// Replaces the known epics.
    #[verifier::spinoff_prover]
    pub fn set_epics(&mut self, epics: Vec<Epic>)
        ensures
            *final(self) == (App { epics: epics, ..*old(self) }),
    {
        self.epics = epics;
    }

    /// Applies the epic selector's choice (see `chosen_filter`), closes the
    /// selector and shows the board under the new filter.
    #[verifier::spinoff_prover]
    pub fn apply_selected_epic_filter(&mut self)
        ensures
            final(self).selected_epic_filter == chosen_filter(
                old(self).epic_selector_index,
                old(self).epics@,
                old(self).selected_epic_filter,
            ),
            final(self).shows_filtered(old(self).all_stories_unfiltered.deep_view()),
            *final(self) == (App {
                selected_epic_filter: final(self).selected_epic_filter,
                show_epic_selector: false,
                stories_by_state: final(self).stories_by_state,
                all_stories_list: final(self).all_stories_list,
                total_loaded_stories: final(self).total_loaded_stories,
                selected_column: 0,
                selected_row: 0,
                list_selected_index: 0,
                list_scroll_offset: 0,
                ..*old(self)
            }),
    {
        proof {
            reveal(App::shows_filtered);
        }
        let filter = self.chosen_epic_filter();
        let (groups, list) = filtered_board(&self.all_stories_unfiltered, filter, &self.workflows);
        let total = list.len();
        self.selected_epic_filter = filter;
        self.show_epic_selector = false;
        self.stories_by_state = groups;
        self.all_stories_list = list;
        self.total_loaded_stories = total;
        self.selected_column = 0;
        self.selected_row = 0;
        self.list_selected_index = 0;
        self.list_scroll_offset = 0;
    }

    fn chosen_epic_filter(&self) -> (r: Option<i64>)
        ensures
            r == chosen_filter(self.epic_selector_index, self.epics@, self.selected_epic_filter),
    {
        if self.epic_selector_index == 0 {
            None
        } else if self.epic_selector_index <= self.epics.len() {
            Some(self.epics[self.epic_selector_index - 1].id)
        } else {
            self.selected_epic_filter
        }
    }
}

} // verus!

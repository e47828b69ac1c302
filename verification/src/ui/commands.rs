//! Opening the popups, and the commands of the help popup.
use crate::api::{Epic, Story};
use crate::git::GitRepoType;
use crate::git::naming::{quick_branch, quick_branch_name, suggested_branch, suggested_branch_name};
use crate::ui::app::App;
use crate::ui::popups::{
    CommentPopupState, CreateEpicField, CreateEpicPopupState, CreatePopupState, EditPopupState,
    GitBranchPopupState,
};
use crate::ui::textarea::{textarea_delete_line_by_end, textarea_delete_line_by_head};
use vstd::prelude::*;

verus! {

/// The index of the first epic with this id, or -1.
pub open spec fn epic_index_of(epics: Seq<Epic>, id: i64) -> int
    decreases epics.len(),
{
    if epics.len() == 0 {
        -1
    } else {
        let k = epic_index_of(epics.drop_last(), id);
        if k >= 0 {
            k
        } else if epics.last().id == id {
            epics.len() - 1
        } else {
            -1
        }
    }
}

/// The epic choice that shows a story's epic: 1 + the epic's index among
/// the epics, or 0 ("no epic") for a story without an epic or with one
/// that is not listed.
pub open spec fn epic_choice(epics: Seq<Epic>, epic_id: Option<i64>) -> usize {
    match epic_id {
        Some(e) => if epic_index_of(epics, e) >= 0 {
            (epic_index_of(epics, e) + 1) as usize
        } else {
            0
        },
        None => 0,
    }
}

/// The epic choice that shows a story's epic (see `epic_choice`).
pub fn epic_choice_of(epics: &Vec<Epic>, epic_id: Option<i64>) -> (r: usize)
    ensures
        r == epic_choice(epics@, epic_id),
{
    match epic_id {
        Some(e) => {
            let mut i: usize = 0;
            while i < epics.len()
                invariant
                    i <= epics@.len(),
                    epic_id == Some(e),
                    epic_index_of(epics@.take(i as int), e) == -1,
                decreases epics@.len() - i,
            {
                assert(epics@.take(i + 1).drop_last() =~= epics@.take(i as int));
                if epics[i].id == e {
                    assert(epics@.take(i + 1).last() == epics@[i as int]);
                    assert(epic_index_of(epics@.take(i + 1), e) == i);
                    proof {
                        lemma_epic_index_prefix(epics@, e, i as int + 1, i as int);
                    }
                    return i + 1;
                }
                i = i + 1;
            }
            assert(epics@.take(epics@.len() as int) =~= epics@);
            0
        },
        None => 0,
    }
}

proof fn lemma_epic_index_prefix(epics: Seq<Epic>, id: i64, n: int, k: int)
    requires
        0 <= k < n <= epics.len(),
        epic_index_of(epics.take(n), id) == k,
    ensures
        epic_index_of(epics, id) == k,
    decreases epics.len() - n,
{
    if n < epics.len() {
        assert(epics.take(n + 1).drop_last() =~= epics.take(n));
        lemma_epic_index_prefix(epics, id, n + 1, k);
    } else {
        assert(epics.take(n) =~= epics);
    }
}

/// The epic form with the current line of each field deleted, on the name
/// field.
pub(crate) fn cleared_epic_form(st: CreateEpicPopupState) -> (r: CreateEpicPopupState)
    ensures
        r.selected_field == CreateEpicField::Name,
{
    let mut st = st;
    textarea_delete_line_by_head(&mut st.name_textarea);
    textarea_delete_line_by_end(&mut st.name_textarea);
    textarea_delete_line_by_head(&mut st.description_textarea);
    textarea_delete_line_by_end(&mut st.description_textarea);
    st.selected_field = CreateEpicField::Name;
    st
}

/// One more, up to the last of the help popup's seventeen commands.
pub fn help_next_index(i: usize) -> (r: usize)
    ensures
        r == (if i < 16 {
            i + 1
        } else {
            i as int
        }),
{
    if i < 16 {
        i + 1
    } else {
        i
    }
}

impl App {
    /// The editing form for the selected story, if any.
    pub fn edit_form_for_selected(&self, show_epic: bool) -> (r: Option<EditPopupState>)
        requires
            self.wf(),
        ensures
            match self.selected_story() {
                Some(s) => r.is_some() && r->0.shows_story_with(
                    s,
                    if show_epic {
                        epic_choice(self.epics@, s.epic_id)
                    } else {
                        0
                    },
                ),
                None => r.is_none(),
            },
    {
        proof {
            reveal(EditPopupState::shows_story_with);
        }
        match self.get_selected_story() {
            Some(story) => {
                let mut st = EditPopupState::from_story(story);
                if show_epic {
                    st.epic_selector_index = epic_choice_of(&self.epics, story.epic_id);
                }
                Some(st)
            },
            None => None,
        }
    }

    /// The git popup for the selected story, if any.
    pub fn git_form_for_selected(&self, quick: bool) -> (r: Option<GitBranchPopupState>)
        requires
            self.wf(),
        ensures
            match self.selected_story() {
                Some(s) => r.is_some() && r->0.offers(
                    if quick {
                        quick_branch(s)
                    } else {
                        suggested_branch(s)
                    },
                    s.id,
                    self.git_context.repo_type == GitRepoType::Bare,
                ),
                None => r.is_none(),
            },
    {
        let bare = self.git_context.is_bare_repo();
        match self.get_selected_story() {
            Some(story) => {
                let branch = if quick {
                    quick_branch_name(story)
                } else {
                    suggested_branch_name(story)
                };
                Some(GitBranchPopupState::offering(branch.as_str(), story.id, bare))
            },
            None => None,
        }
    }

}

} // verus!

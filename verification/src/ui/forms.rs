//! The single changes the popups' keys make, each to its own popup and to
//! nothing else (the `only_*` frames of `keymap`).
use crate::git::generate_worktree_path;
use crate::story_editor::{story_type_at, story_types};
use crate::text::join_strings;
use crate::ui::app::{wrap_next, wrap_prev, App};
use crate::ui::keymap::{only_create, only_edit, only_epic, only_git, only_help, only_selector};
use crate::ui::keys::KeyCode;
use crate::ui::popups::{
    CommentPopupState, CreateEpicField, CreateEpicPopupState, CreateField, CreatePopupState, EditField,
    EditPopupState, GitBranchOption, GitBranchPopupState,
};
use crate::ui::textarea::{
    textarea_delete_line_by_head, textarea_input, textarea_insert_str, textarea_lines, textarea_text, typed_lines,
};
use vstd::prelude::*;

verus! {

impl App {
    // -----------------------------------------------------------------------
    // The editing popup

    /// Closes the editing popup and empties its form.
    #[verifier::spinoff_prover]
    pub(crate) fn close_edit_form(&mut self)
        ensures
            only_edit(*old(self), *final(self)),
            !final(self).show_edit_popup,
            final(self).edit_popup_state.is_fresh(),
            final(self).edit_story_requested == old(self).edit_story_requested,
    {
        proof {
            reveal(only_edit);
        }
        self.show_edit_popup = false;
        self.edit_popup_state = EditPopupState::blank();
    }

    /// Selects a field of the editing form.
    #[verifier::spinoff_prover]
    pub(crate) fn select_edit_field(&mut self, f: EditField)
        ensures
            only_edit(*old(self), *final(self)),
            final(self).edit_popup_state == (EditPopupState { selected_field: f, ..old(self).edit_popup_state }),
            final(self).show_edit_popup == old(self).show_edit_popup,
            final(self).edit_story_requested == old(self).edit_story_requested,
    {
        proof {
            reveal(only_edit);
        }
        self.edit_popup_state.selected_field = f;
    }

    /// Asks to save the edited story and closes the popup.
    #[verifier::spinoff_prover]
    pub(crate) fn submit_edit_form(&mut self)
        ensures
            only_edit(*old(self), *final(self)),
            final(self).edit_popup_state == old(self).edit_popup_state,
            final(self).edit_story_requested,
            !final(self).show_edit_popup,
    {
        proof {
            reveal(only_edit);
        }
        self.edit_story_requested = true;
        self.show_edit_popup = false;
    }

    /// Sets the editing form's story type to the one at `i`.
    #[verifier::spinoff_prover]
    pub(crate) fn set_edit_type(&mut self, i: usize)
        requires
            i < 3,
        ensures
            only_edit(*old(self), *final(self)),
            final(self).edit_popup_state == (EditPopupState {
                story_type_index: i,
                story_type: final(self).edit_popup_state.story_type,
                ..old(self).edit_popup_state
            }),
            final(self).edit_popup_state.story_type@ == story_types()[i as int],
            final(self).show_edit_popup == old(self).show_edit_popup,
            final(self).edit_story_requested == old(self).edit_story_requested,
    {
        proof {
            reveal(only_edit);
        }
        self.edit_popup_state.story_type_index = i;
        self.edit_popup_state.story_type = story_type_at(i);
    }

    /// Sets the editing form's epic choice.
    #[verifier::spinoff_prover]
    pub(crate) fn set_edit_epic(&mut self, i: usize, id: Option<i64>)
        ensures
            only_edit(*old(self), *final(self)),
            final(self).edit_popup_state == (EditPopupState {
                epic_selector_index: i,
                epic_id: id,
                ..old(self).edit_popup_state
            }),
            final(self).show_edit_popup == old(self).show_edit_popup,
            final(self).edit_story_requested == old(self).edit_story_requested,
    {
        proof {
            reveal(only_edit);
        }
        self.edit_popup_state.epic_selector_index = i;
        self.edit_popup_state.epic_id = id;
    }

    // -----------------------------------------------------------------------
    // The story creation popup

    /// Closes the story creation popup and empties its form.
    #[verifier::spinoff_prover]
    pub(crate) fn close_create_form(&mut self)
        ensures
            only_create(*old(self), *final(self)),
            !final(self).show_create_popup,
            final(self).create_popup_state.is_fresh(),
            final(self).create_story_requested == old(self).create_story_requested,
    {
        proof {
            reveal(only_create);
        }
        self.show_create_popup = false;
        self.create_popup_state = CreatePopupState::default();
    }

    /// Selects a field of the creation form.
    #[verifier::spinoff_prover]
    pub(crate) fn select_create_field(&mut self, f: CreateField)
        ensures
            only_create(*old(self), *final(self)),
            final(self).create_popup_state == (CreatePopupState { selected_field: f, ..old(self).create_popup_state }),
            final(self).show_create_popup == old(self).show_create_popup,
            final(self).create_story_requested == old(self).create_story_requested,
    {
        proof {
            reveal(only_create);
        }
        self.create_popup_state.selected_field = f;
    }

    /// Asks to create the story and closes the popup.
    #[verifier::spinoff_prover]
    pub(crate) fn submit_create_form(&mut self)
        ensures
            only_create(*old(self), *final(self)),
            final(self).create_popup_state == old(self).create_popup_state,
            final(self).create_story_requested,
            !final(self).show_create_popup,
    {
        proof {
            reveal(only_create);
        }
        self.create_story_requested = true;
        self.show_create_popup = false;
    }

    /// Sets the creation form's story type to the one at `i`.
    #[verifier::spinoff_prover]
    pub(crate) fn set_create_type(&mut self, i: usize)
        requires
            i < 3,
        ensures
            only_create(*old(self), *final(self)),
            final(self).create_popup_state == (CreatePopupState {
                story_type_index: i,
                story_type: final(self).create_popup_state.story_type,
                ..old(self).create_popup_state
            }),
            final(self).create_popup_state.story_type@ == story_types()[i as int],
            final(self).show_create_popup == old(self).show_create_popup,
            final(self).create_story_requested == old(self).create_story_requested,
    {
        proof {
            reveal(only_create);
        }
        self.create_popup_state.story_type_index = i;
        self.create_popup_state.story_type = story_type_at(i);
    }

    /// Sets the creation form's epic choice.
    #[verifier::spinoff_prover]
    pub(crate) fn set_create_epic(&mut self, i: usize, id: Option<i64>)
        ensures
            only_create(*old(self), *final(self)),
            final(self).create_popup_state == (CreatePopupState {
                epic_selector_index: i,
                epic_id: id,
                ..old(self).create_popup_state
            }),
            final(self).show_create_popup == old(self).show_create_popup,
            final(self).create_story_requested == old(self).create_story_requested,
    {
        proof {
            reveal(only_create);
        }
        self.create_popup_state.epic_selector_index = i;
        self.create_popup_state.epic_id = id;
    }

    // -----------------------------------------------------------------------
    // The epic creation popup

    /// Selects a field of the epic form.
    #[verifier::spinoff_prover]
    pub(crate) fn select_epic_field(&mut self, f: CreateEpicField)
        ensures
            only_epic(*old(self), *final(self)),
            final(self).create_epic_popup_state == (CreateEpicPopupState {
                selected_field: f,
                ..old(self).create_epic_popup_state
            }),
            final(self).show_create_epic_popup == old(self).show_create_epic_popup,
            final(self).create_epic_requested == old(self).create_epic_requested,
    {
        proof {
            reveal(only_epic);
        }
        self.create_epic_popup_state.selected_field = f;
    }

    /// Hands a key to the epic form's selected field.
    #[verifier::spinoff_prover]
    pub(crate) fn epic_form_text(&mut self, k: KeyCode)
        ensures
            only_epic(*old(self), *final(self)),
            final(self).show_create_epic_popup == old(self).show_create_epic_popup,
            final(self).create_epic_requested == old(self).create_epic_requested,
            final(self).create_epic_popup_state.selected_field == old(self).create_epic_popup_state.selected_field,
            old(self).create_epic_popup_state.selected_field == CreateEpicField::Name ==> textarea_lines(
                final(self).create_epic_popup_state.name_textarea,
            ) == typed_lines(old(self).create_epic_popup_state.name_textarea, k)
                && final(self).create_epic_popup_state.description_textarea
                == old(self).create_epic_popup_state.description_textarea,
            old(self).create_epic_popup_state.selected_field == CreateEpicField::Description ==> textarea_lines(
                final(self).create_epic_popup_state.description_textarea,
            ) == typed_lines(old(self).create_epic_popup_state.description_textarea, k)
                && final(self).create_epic_popup_state.name_textarea
                == old(self).create_epic_popup_state.name_textarea,
    {
        proof {
            reveal(only_epic);
        }
        match self.create_epic_popup_state.selected_field {
            CreateEpicField::Name => {
                textarea_input(&mut self.create_epic_popup_state.name_textarea, k);
            },
            CreateEpicField::Description => {
                textarea_input(&mut self.create_epic_popup_state.description_textarea, k);
            },
        }
    }

    // -----------------------------------------------------------------------
    // The git branch popup

    /// Closes the git popup and empties its form.
    #[verifier::spinoff_prover]
    pub(crate) fn close_git_form(&mut self)
        ensures
            only_git(*old(self), *final(self)),
            !final(self).show_git_popup,
            final(self).git_popup_state.is_fresh(),
            final(self).git_branch_requested == old(self).git_branch_requested,
    {
        proof {
            reveal(only_epic);
    reveal(only_git);
        }
        self.show_git_popup = false;
        self.git_popup_state = GitBranchPopupState::blank();
    }

    /// Closes the git popup, asking for its operation when `ask`.
    #[verifier::spinoff_prover]
    pub(crate) fn submit_git_form(&mut self, ask: bool)
        ensures
            only_git(*old(self), *final(self)),
            !final(self).show_git_popup,
            final(self).git_popup_state == old(self).git_popup_state,
            final(self).git_branch_requested == (old(self).git_branch_requested || ask),
    {
        proof {
            reveal(only_git);
        }
        if ask {
            self.git_branch_requested = true;
        }
        self.show_git_popup = false;
    }

    /// Starts or stops editing the branch name and the worktree path.
    #[verifier::spinoff_prover]
    pub(crate) fn set_git_editing(&mut self, branch: bool, path: bool)
        ensures
            only_git(*old(self), *final(self)),
            final(self).git_popup_state == (GitBranchPopupState {
                editing_branch_name: branch,
                editing_worktree_path: path,
                ..old(self).git_popup_state
            }),
            final(self).show_git_popup == old(self).show_git_popup,
            final(self).git_branch_requested == old(self).git_branch_requested,
    {
        proof {
            reveal(only_git);
        }
        self.git_popup_state.editing_branch_name = branch;
        self.git_popup_state.editing_worktree_path = path;
    }

    /// Chooses an operation in the git popup.
    #[verifier::spinoff_prover]
    pub(crate) fn set_git_choice(&mut self, c: GitBranchOption)
        ensures
            only_git(*old(self), *final(self)),
            final(self).git_popup_state == (GitBranchPopupState { selected_option: c, ..old(self).git_popup_state }),
            final(self).show_git_popup == old(self).show_git_popup,
            final(self).git_branch_requested == old(self).git_branch_requested,
    {
        proof {
            reveal(only_git);
        }
        self.git_popup_state.selected_option = c;
    }

    /// Stops editing the branch name and makes the worktree path from the
    /// new name (see `remake_worktree_path`).
    #[verifier::spinoff_prover]
    pub(crate) fn finish_branch_name(&mut self)
        ensures
            only_git(*old(self), *final(self)),
            final(self).git_popup_state == (GitBranchPopupState {
                editing_branch_name: false,
                worktree_path_textarea: final(self).git_popup_state.worktree_path_textarea,
                ..old(self).git_popup_state
            }),
            final(self).show_git_popup == old(self).show_git_popup,
            final(self).git_branch_requested == old(self).git_branch_requested,
    {
        proof {
            reveal(only_git);
        }
        remake_worktree_path(&mut self.git_popup_state);
    }

    /// Hands a key to the branch name being edited.
    #[verifier::spinoff_prover]
    pub(crate) fn git_branch_text(&mut self, k: KeyCode)
        ensures
            only_git(*old(self), *final(self)),
            final(self).git_popup_state == (GitBranchPopupState {
                branch_name_textarea: final(self).git_popup_state.branch_name_textarea,
                ..old(self).git_popup_state
            }),
            textarea_lines(final(self).git_popup_state.branch_name_textarea) == typed_lines(
                old(self).git_popup_state.branch_name_textarea,
                k,
            ),
            final(self).show_git_popup == old(self).show_git_popup,
            final(self).git_branch_requested == old(self).git_branch_requested,
    {
        proof {
            reveal(only_git);
        }
        textarea_input(&mut self.git_popup_state.branch_name_textarea, k);
    }

    /// Hands a key to the worktree path being edited.
    #[verifier::spinoff_prover]
    pub(crate) fn git_path_text(&mut self, k: KeyCode)
        ensures
            only_git(*old(self), *final(self)),
            final(self).git_popup_state == (GitBranchPopupState {
                worktree_path_textarea: final(self).git_popup_state.worktree_path_textarea,
                ..old(self).git_popup_state
            }),
            textarea_lines(final(self).git_popup_state.worktree_path_textarea) == typed_lines(
                old(self).git_popup_state.worktree_path_textarea,
                k,
            ),
            final(self).show_git_popup == old(self).show_git_popup,
            final(self).git_branch_requested == old(self).git_branch_requested,
    {
        proof {
            reveal(only_git);
        }
        textarea_input(&mut self.git_popup_state.worktree_path_textarea, k);
    }

    // -----------------------------------------------------------------------
    // The help popup and the state selector

    /// Closes the help popup.
    #[verifier::spinoff_prover]
    pub(crate) fn close_help_popup(&mut self)
        ensures
            only_help(*old(self), *final(self)),
            !final(self).show_help_popup,
            final(self).help_selected_index == old(self).help_selected_index,
    {
        proof {
            reveal(only_help);
        }
        self.show_help_popup = false;
    }

    /// Moves the help popup's choice to `i`.
    #[verifier::spinoff_prover]
    pub(crate) fn set_help_index(&mut self, i: usize)
        ensures
            only_help(*old(self), *final(self)),
            final(self).show_help_popup == old(self).show_help_popup,
            final(self).help_selected_index == i,
    {
        proof {
            reveal(only_help);
        }
        self.help_selected_index = i;
    }

    /// Moves the state selector's choice down (or up), wrapping.
    #[verifier::spinoff_prover]
    pub(crate) fn step_state_selection(&mut self, down: bool)
        requires
            old(self).wf(),
        ensures
            only_selector(*old(self), *final(self)),
            final(self).show_state_selector == old(self).show_state_selector,
            final(self).state_selector_index == (if old(self).target_states().len() > 0 {
                if down {
                    wrap_next(old(self).state_selector_index, old(self).target_states().len() as int)
                } else {
                    wrap_prev(old(self).state_selector_index, old(self).target_states().len() as int)
                }
            } else {
                old(self).state_selector_index
            }),
    {
        proof {
            reveal(only_selector);
        }
        if down {
            self.next_state_selection();
        } else {
            self.previous_state_selection();
        }
    }

    /// The interface once the chosen state was asked of the service: the
    /// state selector closed, back on its first choice; nothing else
    /// changes.
    #[verifier::spinoff_prover]
    pub fn state_change_done(&mut self)
        ensures
            only_selector(*old(self), *final(self)),
            !final(self).show_state_selector,
            final(self).state_selector_index == 0,
    {
        self.close_state_selector();
    }

    /// Closes the state selector, back on its first choice.
    #[verifier::spinoff_prover]
    pub(crate) fn close_state_selector(&mut self)
        ensures
            only_selector(*old(self), *final(self)),
            !final(self).show_state_selector,
            final(self).state_selector_index == 0,
    {
        proof {
            reveal(only_selector);
        }
        self.show_state_selector = false;
        self.state_selector_index = 0;
    }
}

/// Stops editing the branch name and makes the worktree path from the new
/// name: the path editor's current line, up to the cursor, is replaced by
/// the path. (The cursor is not modelled, so the path editor's new lines
/// are not stated.)
fn remake_worktree_path(st: &mut GitBranchPopupState)
    ensures
        *final(st) == (GitBranchPopupState {
            editing_branch_name: false,
            worktree_path_textarea: final(st).worktree_path_textarea,
            ..*old(st)
        }),
{
    st.editing_branch_name = false;
    let lines = textarea_text(&st.branch_name_textarea);
    let branch = join_strings(&lines, "");
    let path = generate_worktree_path(branch.as_str());
    textarea_delete_line_by_head(&mut st.worktree_path_textarea);
    textarea_insert_str(&mut st.worktree_path_textarea, path.as_str());
}

/// Leaving the interface as it is changes no popup.
pub proof fn lemma_nothing_changed(a: App)
    ensures
        only_edit(a, a),
        only_create(a, a),
        only_epic(a, a),
        only_git(a, a),
        only_help(a, a),
        only_selector(a, a),
{
    reveal(only_edit);
    reveal(only_create);
    reveal(only_epic);
    reveal(only_git);
    reveal(only_help);
    reveal(only_selector);
}

} // verus!

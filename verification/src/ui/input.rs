//! What each key press does, by the popup that is open.
use crate::api::Error;
use crate::git::generate_worktree_path;
use crate::git::GitRepoType;
use crate::git::naming::{quick_branch, suggested_branch};
use crate::story_editor::story_type_at;
use crate::text::join_strings;
use crate::ui::app::{next_index, prev_index, step_down_index, App};
use crate::ui::commands::{cleared_epic_form, epic_choice, help_next_index};
use crate::ui::keymap::{
    board_column_effect, board_create_effect, board_detail_effect, board_key_effect, board_move_effect,
    board_story_effect, board_view_effect, comment_key_effect, create_form_opened, create_form_typed, edit_form_typed, only_comment_form_changed, only_edit_form_changed, only_create, only_edit, only_git, only_help, only_selector, only_git_form_changed, create_epic_key_effect, create_key_effect, edit_key_effect,
    epic_selector_key_effect, git_popup_key_effect, git_result_key_effect, help_command_effect, help_key_effect,
    key_arrow_up_or_down, key_closes_help, key_edits_branch, key_effect, key_esc_or_enter, key_is_char,
    key_moves_down, key_moves_left, key_moves_right, key_moves_up, key_switches_choice,
    arrow_up_or_down, edits_branch, is_char, moves_down, moves_left, moves_right, moves_up,
    state_selector_key_effect, submits, only_help_closed, unchanged,
};
use crate::ui::forms::lemma_nothing_changed;
use crate::ui::keys::{KeyCode, KeyPress};
use crate::ui::popups::{
    CommentPopupState, CreateEpicField, CreateEpicPopupState, CreateField, CreatePopupState, EditField,
    EditPopupState, GitBranchOption, GitBranchPopupState, GitResultOption,
};
use crate::ui::textarea::{
    textarea_delete_line_by_head, textarea_input, textarea_insert_str, textarea_is_blank, textarea_lines, textarea_text, typed_lines,
};
use vstd::prelude::*;

verus! {

/// The choice after `current` when moving down the git popup's choices:
/// "create worktree" is offered in bare repositories only.
pub open spec fn git_choice_down(current: GitBranchOption, bare: bool) -> GitBranchOption {
    match current {
        GitBranchOption::CreateBranch => if bare {
            GitBranchOption::CreateWorktree
        } else {
            GitBranchOption::Cancel
        },
        GitBranchOption::CreateWorktree => GitBranchOption::Cancel,
        GitBranchOption::Cancel => if bare {
            GitBranchOption::CreateWorktree
        } else {
            GitBranchOption::CreateBranch
        },
    }
}

/// The choice after `current` when moving up the git popup's choices.
pub open spec fn git_choice_up(current: GitBranchOption, bare: bool) -> GitBranchOption {
    match current {
        GitBranchOption::CreateBranch => GitBranchOption::Cancel,
        GitBranchOption::CreateWorktree => GitBranchOption::Cancel,
        GitBranchOption::Cancel => if bare {
            GitBranchOption::CreateWorktree
        } else {
            GitBranchOption::CreateBranch
        },
    }
}

fn git_choice_after(current: GitBranchOption, bare: bool, down: bool) -> (r: GitBranchOption)
    ensures
        r == (if down {
            git_choice_down(current, bare)
        } else {
            git_choice_up(current, bare)
        }),
{
    match current {
        GitBranchOption::CreateBranch => if down && bare {
            GitBranchOption::CreateWorktree
        } else {
            GitBranchOption::Cancel
        },
        GitBranchOption::CreateWorktree => GitBranchOption::Cancel,
        GitBranchOption::Cancel => if bare {
            GitBranchOption::CreateWorktree
        } else {
            GitBranchOption::CreateBranch
        },
    }
}

/// The epic id chosen at an index of the epic choice: none at 0 ("no
/// epic") and beyond the epics, the epic's id otherwise.
fn epic_at_choice(epics: &Vec<crate::api::Epic>, index: usize) -> (r: Option<i64>)
    ensures
        r == (if index == 0 || index > epics@.len() {
            None
        } else {
            Some(epics@[index - 1].id)
        }),
{
    if index == 0 || index > epics.len() {
        None
    } else {
        Some(epics[index - 1].id)
    }
}

impl App {
    /// Handles a key press: the open popup that comes first among help,
    /// comment, git result, git branch, epic selector, epic creation,
    /// editing, story creation and state selector takes it; with none open
    /// the board does (see `key_effect`).
    #[verifier::spinoff_prover]
    pub fn handle_key_event(&mut self, key: KeyPress) -> (r: Result<(), Error>)
        requires
            old(self).wf(),
            old(self).detail_scroll_offset < usize::MAX,
        ensures
            r.is_ok(),
            key_effect(*old(self), *final(self), key),
    {
        if self.show_help_popup {
            self.handle_help_key(key);
        } else if self.show_comment_popup {
            self.handle_comment_key(key);
        } else if self.show_git_result_popup {
            self.handle_git_result_key(key);
        } else if self.show_git_popup {
            self.handle_git_popup_key(key);
        } else if self.show_epic_selector {
            self.handle_epic_selector_key(key);
        } else if self.show_create_epic_popup {
            self.handle_create_epic_key(key);
        } else if self.show_edit_popup {
            self.handle_edit_key(key);
        } else if self.show_create_popup {
            self.handle_create_key(key);
        } else if self.show_state_selector {
            self.handle_state_selector_key(key);
        } else {
            self.handle_board_key(key);
        }
        Ok(())
    }

    /// A key in the help popup (see `help_key_effect`).
    #[verifier::spinoff_prover]
    pub fn handle_help_key(&mut self, key: KeyPress)
        requires
            old(self).wf(),
        ensures
            help_key_effect(*old(self), *final(self), key),
    {
        proof {
            reveal(help_key_effect);
        }
        let k = key.code;
        if key_closes_help(k) {
            self.close_help_popup();
        } else if key_moves_up(k) {
            let i = step_down_index(self.help_selected_index);
            self.set_help_index(i);
        } else if key_moves_down(k) {
            let i = help_next_index(self.help_selected_index);
            self.set_help_index(i);
        } else if k == KeyCode::Enter {
            let index = self.help_selected_index;
            self.run_help_command(index);
        } else {
            proof {
                reveal(unchanged);
            }
        }
    }

    /// Runs the help popup's command at `index`, as the command's key does
    /// on the board, and closes the popup (see `help_command_effect`).
    #[verifier::spinoff_prover]
    pub fn run_help_command(&mut self, index: usize)
        requires
            old(self).wf(),
        ensures
            !final(self).show_help_popup,
            help_command_effect(*old(self), *final(self), index),
    {
        if index == 4 {
            self.run_details_command(index);
        } else if index == 5 || index == 6 {
            self.run_toggle_command(index);
        } else if 7 <= index && index <= 9 {
            self.run_loading_command(index);
        } else if 10 <= index && index <= 12 {
            self.run_story_command(index);
        } else if index == 13 || index == 16 {
            self.run_last_command(index);
        } else if index == 14 {
            self.run_git_command(index);
        } else {
            self.close_help(index);
        }
    }

    #[verifier::spinoff_prover]
    fn run_details_command(&mut self, index: usize)
        requires
            old(self).wf(),
            index == 4,
        ensures
            !final(self).show_help_popup,
            help_command_effect(*old(self), *final(self), index),
    {
        proof {
            reveal(help_command_effect);
        }
        self.open_details();
        self.show_help_popup = false;
    }

    #[verifier::spinoff_prover]
    #[verifier::rlimit(30)]
    fn run_toggle_command(&mut self, index: usize)
        requires
            index == 5 || index == 6,
        ensures
            !final(self).show_help_popup,
            help_command_effect(*old(self), *final(self), index),
    {
        proof {
            reveal(help_command_effect);
        }
        if index == 5 {
            self.toggle_view_mode();
        } else {
            self.toggle_epic_selector();
        }
        self.show_help_popup = false;
    }

    #[verifier::spinoff_prover]
    fn run_loading_command(&mut self, index: usize)
        requires
            old(self).wf(),
            7 <= index <= 9,
        ensures
            !final(self).show_help_popup,
            help_command_effect(*old(self), *final(self), index),
    {
        proof {
            reveal(help_command_effect);
        }
        if index == 7 {
            self.refresh_stories();
        } else if index == 8 {
            self.request_load_more();
        } else {
            self.open_state_selector();
        }
        self.show_help_popup = false;
    }

    #[verifier::spinoff_prover]
    fn run_story_command(&mut self, index: usize)
        requires
            old(self).wf(),
            10 <= index <= 12,
        ensures
            !final(self).show_help_popup,
            help_command_effect(*old(self), *final(self), index),
    {
        proof {
            reveal(help_command_effect);
        }
        if index == 10 {
            self.take_ownership_requested = true;
        } else if index == 11 {
            self.open_edit_popup(false);
        } else {
            self.open_create_popup();
        }
        self.show_help_popup = false;
    }

    #[verifier::spinoff_prover]
    #[verifier::rlimit(30)]
    fn run_last_command(&mut self, index: usize)
        requires
            index == 13 || index == 16,
        ensures
            !final(self).show_help_popup,
            help_command_effect(*old(self), *final(self), index),
    {
        proof {
            reveal(help_command_effect);
        }
        if index == 13 {
            self.open_create_epic_popup();
        } else {
            self.should_quit = true;
        }
        self.show_help_popup = false;
    }

    #[verifier::spinoff_prover]
    fn run_git_command(&mut self, index: usize)
        requires
            old(self).wf(),
            index == 14,
        ensures
            !final(self).show_help_popup,
            help_command_effect(*old(self), *final(self), index),
    {
        proof {
            reveal(help_command_effect);
        }
        self.open_git_popup(false);
        self.show_help_popup = false;
    }

    /// The commands that only inform close the popup and do nothing else.
    #[verifier::spinoff_prover]
    #[verifier::rlimit(60)]
    fn close_help(&mut self, index: usize)
        requires
            index < 4 || index == 15 || index > 16,
        ensures
            !final(self).show_help_popup,
            help_command_effect(*old(self), *final(self), index),
    {
        self.show_help_popup = false;
        proof {
            reveal(only_help_closed);
            assert(only_help_closed(*old(self), *self));
            App::lemma_informing_command(*old(self), *self, index);
        }
    }

    /// The commands that only inform do what closing the popup does.
    proof fn lemma_informing_command(a: App, b: App, index: usize)
        requires
            index < 4 || index == 15 || index > 16,
            only_help_closed(a, b),
        ensures
            help_command_effect(a, b, index),
    {
        reveal(help_command_effect);
    }

    /// Opens the detail view when it is closed and a story is selected (see
    /// `toggle_detail`).
    #[verifier::spinoff_prover]
    fn open_details(&mut self)
        requires
            old(self).wf(),
        ensures
            final(self).show_detail == (old(self).show_detail || (old(self).selected_story() is Some
                && old(self).column_has_stories())),
    {
        if !self.show_detail && self.get_selected_story().is_some() {
            self.toggle_detail();
        }
    }

    /// Opens the editing popup for the selected story, if any; the epic
    /// choice shows the story's epic when `show_epic`, else "no epic".
    #[verifier::spinoff_prover]
    fn open_edit_popup(&mut self, show_epic: bool)
        requires
            old(self).wf(),
        ensures
            match old(self).selected_story() {
                Some(s) => final(self).show_edit_popup && final(self).edit_popup_state.shows_story_with(
                    s,
                    if show_epic {
                        epic_choice(old(self).epics@, s.epic_id)
                    } else {
                        0
                    },
                ),
                None => final(self).show_edit_popup == old(self).show_edit_popup,
            },
            only_edit_form_changed(*old(self), *final(self)),
    {
        let st = self.edit_form_for_selected(show_epic);
        match st {
            Some(st) => self.show_edit_form(st),
            None => {
                proof {
                    lemma_edit_form_kept(*self);
                }
            },
        }
    }

    /// Shows the editing popup with the form `st`.
    #[verifier::spinoff_prover]
    fn show_edit_form(&mut self, st: EditPopupState)
        ensures
            final(self).show_edit_popup,
            final(self).edit_popup_state == st,
            only_edit_form_changed(*old(self), *final(self)),
    {
        proof {
            reveal(only_edit_form_changed);
        }
        self.show_edit_popup = true;
        self.edit_popup_state = st;
    }

    /// Opens the git popup for the selected story inside a repository;
    /// `quick` picks the board's branch name over the suggested one.
    #[verifier::spinoff_prover]
    fn open_git_popup(&mut self, quick: bool)
        requires
            old(self).wf(),
        ensures
            match old(self).selected_story() {
                Some(s) => if old(self).git_context.repo_type != GitRepoType::NotARepo {
                    final(self).show_git_popup && final(self).git_popup_state.offers(
                        if quick {
                            quick_branch(s)
                        } else {
                            suggested_branch(s)
                        },
                        s.id,
                        old(self).git_context.repo_type == GitRepoType::Bare,
                    )
                } else {
                    final(self).show_git_popup == old(self).show_git_popup
                },
                None => final(self).show_git_popup == old(self).show_git_popup,
            },
            only_git_form_changed(*old(self), *final(self)),
    {
        if self.git_context.is_git_repo() {
            let st = self.git_form_for_selected(quick);
            match st {
                Some(st) => self.show_git_form(st),
                None => {
                    proof {
                        lemma_git_form_kept(*self);
                    }
                },
            }
        } else {
            proof {
                lemma_git_form_kept(*self);
            }
        }
    }

    /// Shows the git popup with the form `st`.
    #[verifier::spinoff_prover]
    fn show_git_form(&mut self, st: GitBranchPopupState)
        ensures
            final(self).show_git_popup,
            final(self).git_popup_state == st,
            only_git_form_changed(*old(self), *final(self)),
    {
        proof {
            reveal(only_git_form_changed);
        }
        self.show_git_popup = true;
        self.git_popup_state = st;
    }

    /// Opens the state selector when a story is selected (see
    /// `toggle_state_selector`).
    #[verifier::spinoff_prover]
    fn open_state_selector(&mut self)
        requires
            old(self).wf(),
        ensures
            final(self).show_state_selector == (old(self).show_state_selector || (old(self).selected_story() is Some
                && old(self).column_len() > 0)),
    {
        if self.get_selected_story().is_some() {
            self.toggle_state_selector();
        }
    }

    /// Opens the story creation popup with an empty form.
    #[verifier::spinoff_prover]
    fn open_create_popup(&mut self)
        ensures
            create_form_opened(*old(self), *final(self)),
            final(self).show_create_popup,
            final(self).create_popup_state.is_fresh(),
    {
        proof {
            reveal(create_form_opened);
        }
        let st = CreatePopupState::default();
        self.show_create_popup = true;
        self.create_popup_state = st;
    }

    /// Opens the epic creation popup on its name field, deleting the
    /// current line of each of its fields.
    #[verifier::spinoff_prover]
    pub fn open_create_epic_popup(&mut self)
        ensures
            final(self).show_create_epic_popup,
            final(self).create_epic_popup_state.selected_field == CreateEpicField::Name,
    {
        let mut st = CreateEpicPopupState::blank();
        std::mem::swap(&mut st, &mut self.create_epic_popup_state);
        let st = cleared_epic_form(st);
        self.show_create_epic_popup = true;
        self.create_epic_popup_state = st;
    }

    /// A key in the comment popup (see `comment_key_effect`).
    #[verifier::spinoff_prover]
    pub fn handle_comment_key(&mut self, key: KeyPress)
        ensures
            comment_key_effect(*old(self), *final(self), key),
    {
        if key.code == KeyCode::Esc {
            self.cancel_comment(key);
        } else if key.code == KeyCode::Enter && key.ctrl {
            self.submit_comment(key);
        } else {
            self.edit_comment(key);
        }
    }

    #[verifier::spinoff_prover]
    fn cancel_comment(&mut self, key: KeyPress)
        requires
            key.code is Esc,
        ensures
            comment_key_effect(*old(self), *final(self), key),
    {
        proof {
            reveal(comment_key_effect);
        }
        self.show_comment_popup = false;
        self.comment_popup_state = CommentPopupState::for_story(0);
    }

    #[verifier::spinoff_prover]
    fn submit_comment(&mut self, key: KeyPress)
        requires
            submits(key),
        ensures
            comment_key_effect(*old(self), *final(self), key),
    {
        proof {
            reveal(comment_key_effect);
        }
        let blank = textarea_is_blank(&self.comment_popup_state.comment_textarea);
        if !blank {
            self.add_comment_requested = true;
            self.show_comment_popup = false;
        }
        assert(self.comment_popup_state == old(self).comment_popup_state);
    }

    #[verifier::spinoff_prover]
    fn edit_comment(&mut self, key: KeyPress)
        requires
            !(key.code is Esc),
            !submits(key),
        ensures
            comment_key_effect(*old(self), *final(self), key),
    {
        proof {
            reveal(comment_key_effect);
        }
        textarea_input(&mut self.comment_popup_state.comment_textarea, key.code);
    }

    /// A key in the git result popup (see `git_result_key_effect`).
    #[verifier::spinoff_prover]
    pub fn handle_git_result_key(&mut self, key: KeyPress)
        ensures
            git_result_key_effect(*old(self), *final(self), key),
    {
        proof {
            reveal(git_result_key_effect);
        }
        let k = key.code;
        if k == KeyCode::Esc {
            self.show_git_result_popup = false;
        } else if k == KeyCode::Enter {
            if self.git_result_state.selected_option == GitResultOption::Continue {
                self.show_git_result_popup = false;
            } else {
                match &self.git_result_state.worktree_path {
                    Some(p) => {
                        let dir = p.clone();
                        self.exit_directory = Some(dir);
                    },
                    None => {},
                }
                self.should_quit = true;
            }
        } else if key_switches_choice(k) {
            if self.git_result_state.worktree_path.is_some() && self.git_result_state.success {
                let next = match self.git_result_state.selected_option {
                    GitResultOption::Continue => GitResultOption::ExitAndChange,
                    GitResultOption::ExitAndChange => GitResultOption::Continue,
                };
                self.git_result_state.selected_option = next;
            }
        } else {
            proof {
                reveal(unchanged);
            }
        }
    }

    /// A key in the git branch popup (see `git_popup_key_effect`).
    #[verifier::spinoff_prover]
    pub fn handle_git_popup_key(&mut self, key: KeyPress)
        ensures
            git_popup_key_effect(*old(self), *final(self), key),
    {
        if self.git_popup_state.editing_branch_name {
            self.branch_name_key(key);
        } else if self.git_popup_state.editing_worktree_path {
            self.worktree_path_key(key);
        } else {
            self.git_choice_key(key);
        }
    }

    /// A key while the branch name is edited: Esc stops; Enter stops and
    /// makes the worktree path from the new name; other keys edit.
    #[verifier::spinoff_prover]
    fn branch_name_key(&mut self, key: KeyPress)
        requires
            old(self).git_popup_state.editing_branch_name,
        ensures
            git_popup_key_effect(*old(self), *final(self), key),
    {
        proof {
            reveal(git_popup_key_effect);
        }
        let k = key.code;
        if k == KeyCode::Esc {
            let path = self.git_popup_state.editing_worktree_path;
            self.set_git_editing(false, path);
        } else if k == KeyCode::Enter {
            self.finish_branch_name();
        } else {
            self.git_branch_text(k);
        }
    }

    /// A key while the worktree path is edited: Esc and Enter stop, other
    /// keys edit.
    #[verifier::spinoff_prover]
    fn worktree_path_key(&mut self, key: KeyPress)
        requires
            !old(self).git_popup_state.editing_branch_name,
            old(self).git_popup_state.editing_worktree_path,
        ensures
            git_popup_key_effect(*old(self), *final(self), key),
    {
        proof {
            reveal(git_popup_key_effect);
        }
        if key_esc_or_enter(key.code) {
            self.set_git_editing(false, false);
        } else {
            self.git_path_text(key.code);
        }
    }

    /// A key on the git popup's choices.
    #[verifier::spinoff_prover]
    fn git_choice_key(&mut self, key: KeyPress)
        requires
            !old(self).git_popup_state.editing_branch_name,
            !old(self).git_popup_state.editing_worktree_path,
        ensures
            git_popup_key_effect(*old(self), *final(self), key),
    {
        let k = key.code;
        if k == KeyCode::Esc || k == KeyCode::Enter {
            self.close_git_popup(key);
        } else if key_edits_branch(k) || key_is_char(k, 'w') {
            self.start_git_editing(key);
        } else {
            self.move_git_choice(key);
        }
    }

    #[verifier::spinoff_prover]
    fn close_git_popup(&mut self, key: KeyPress)
        requires
            !old(self).git_popup_state.editing_branch_name,
            !old(self).git_popup_state.editing_worktree_path,
            key.code is Esc || key.code is Enter,
        ensures
            git_popup_key_effect(*old(self), *final(self), key),
    {
        proof {
            reveal(git_popup_key_effect);
        }
        if key.code == KeyCode::Esc {
            self.close_git_form();
        } else {
            let ask = match self.git_popup_state.selected_option {
                GitBranchOption::Cancel => false,
                _ => true,
            };
            self.submit_git_form(ask);
        }
    }

    #[verifier::spinoff_prover]
    fn start_git_editing(&mut self, key: KeyPress)
        requires
            !old(self).git_popup_state.editing_branch_name,
            !old(self).git_popup_state.editing_worktree_path,
            edits_branch(key.code) || is_char(key.code, 'w'),
        ensures
            git_popup_key_effect(*old(self), *final(self), key),
    {
        proof {
            reveal(git_popup_key_effect);
        }
        if key_edits_branch(key.code) {
            self.set_git_editing(true, false);
        } else if self.git_context.is_bare_repo() {
            self.set_git_editing(false, true);
        } else {
            proof {
                lemma_nothing_changed(*self);
            }
        }
    }

    #[verifier::spinoff_prover]
    fn move_git_choice(&mut self, key: KeyPress)
        requires
            !old(self).git_popup_state.editing_branch_name,
            !old(self).git_popup_state.editing_worktree_path,
            !(key.code is Esc),
            !(key.code is Enter),
            !edits_branch(key.code),
            !is_char(key.code, 'w'),
        ensures
            git_popup_key_effect(*old(self), *final(self), key),
    {
        proof {
            reveal(git_popup_key_effect);
        }
        let bare = self.git_context.is_bare_repo();
        if key_moves_up(key.code) {
            let c = git_choice_after(self.git_popup_state.selected_option, bare, false);
            self.set_git_choice(c);
        } else if key_moves_down(key.code) {
            let c = git_choice_after(self.git_popup_state.selected_option, bare, true);
            self.set_git_choice(c);
        } else {
            proof {
                lemma_nothing_changed(*self);
            }
        }
    }

    /// A key in the epic selector (see `epic_selector_key_effect`).
    #[verifier::spinoff_prover]
    pub fn handle_epic_selector_key(&mut self, key: KeyPress)
        requires
            old(self).wf(),
        ensures
            epic_selector_key_effect(*old(self), *final(self), key),
    {
        let k = key.code;
        if key_moves_down(k) || key_moves_up(k) {
            self.move_epic_choice(key);
        } else if k == KeyCode::Enter {
            self.choose_epic(key);
        } else {
            self.leave_epic_selector(key);
        }
    }

    #[verifier::spinoff_prover]
    fn move_epic_choice(&mut self, key: KeyPress)
        requires
            old(self).wf(),
            moves_down(key.code) || moves_up(key.code),
        ensures
            epic_selector_key_effect(*old(self), *final(self), key),
    {
        proof {
            reveal(epic_selector_key_effect);
        }
        if key_moves_down(key.code) {
            self.next_epic_selection();
        } else {
            self.previous_epic_selection();
        }
    }

    #[verifier::spinoff_prover]
    fn choose_epic(&mut self, key: KeyPress)
        requires
            key.code is Enter,
        ensures
            epic_selector_key_effect(*old(self), *final(self), key),
    {
        proof {
            reveal(epic_selector_key_effect);
        }
        self.apply_selected_epic_filter();
    }

    #[verifier::spinoff_prover]
    fn leave_epic_selector(&mut self, key: KeyPress)
        requires
            !moves_down(key.code),
            !moves_up(key.code),
            !(key.code is Enter),
        ensures
            epic_selector_key_effect(*old(self), *final(self), key),
    {
        proof {
            reveal(epic_selector_key_effect);
        }
        if key.code == KeyCode::Esc {
            self.show_epic_selector = false;
            self.epic_selector_index = 0;
        } else {
            proof {
                reveal(unchanged);
            }
        }
    }

    /// A key in the epic creation popup (see `create_epic_key_effect`).
    #[verifier::spinoff_prover]
    pub fn handle_create_epic_key(&mut self, key: KeyPress)
        ensures
            create_epic_key_effect(*old(self), *final(self), key),
    {
        let k = key.code;
        if k == KeyCode::Esc || k == KeyCode::Tab {
            self.leave_or_switch_epic_field(key);
        } else if k == KeyCode::Enter {
            self.confirm_epic_field(key);
        } else {
            self.type_in_epic_form(key);
        }
    }

    #[verifier::spinoff_prover]
    fn leave_or_switch_epic_field(&mut self, key: KeyPress)
        requires
            key.code is Esc || key.code is Tab,
        ensures
            create_epic_key_effect(*old(self), *final(self), key),
    {
        proof {
            reveal(create_epic_key_effect);
        }
        if key.code == KeyCode::Esc {
            self.show_create_epic_popup = false;
            self.create_epic_popup_state = CreateEpicPopupState::blank();
        } else {
            let f = match self.create_epic_popup_state.selected_field {
                CreateEpicField::Name => CreateEpicField::Description,
                CreateEpicField::Description => CreateEpicField::Name,
            };
            self.select_epic_field(f);
        }
    }

    #[verifier::spinoff_prover]
    fn confirm_epic_field(&mut self, key: KeyPress)
        requires
            key.code is Enter,
        ensures
            create_epic_key_effect(*old(self), *final(self), key),
    {
        proof {
            reveal(create_epic_key_effect);
        }
        match self.create_epic_popup_state.selected_field {
            CreateEpicField::Name => {
                self.select_epic_field(CreateEpicField::Description);
            },
            CreateEpicField::Description => {
                if !textarea_is_blank(&self.create_epic_popup_state.name_textarea) {
                    self.create_epic_requested = true;
                    self.show_create_epic_popup = false;
                } else {
                    proof {
                        lemma_nothing_changed(*self);
                    }
                }
            },
        }
    }

    #[verifier::spinoff_prover]
    fn type_in_epic_form(&mut self, key: KeyPress)
        requires
            !(key.code is Esc),
            !(key.code is Tab),
            !(key.code is Enter),
        ensures
            create_epic_key_effect(*old(self), *final(self), key),
    {
        proof {
            reveal(create_epic_key_effect);
        }
        self.epic_form_text(key.code);
    }

    /// A key in the editing popup (see `edit_key_effect`).
    #[verifier::spinoff_prover]
    pub fn handle_edit_key(&mut self, key: KeyPress)
        requires
            old(self).wf(),
        ensures
            edit_key_effect(*old(self), *final(self), key),
    {
        let k = key.code;
        if k == KeyCode::Esc || k == KeyCode::Tab {
            self.edit_form_leave_or_tab(key);
        } else if k == KeyCode::Enter {
            self.edit_form_enter(key);
        } else if key_arrow_up_or_down(k) {
            self.edit_form_arrow(key);
        } else {
            self.edit_form_type(key);
        }
    }

    #[verifier::spinoff_prover]
    fn edit_form_leave_or_tab(&mut self, key: KeyPress)
        requires
            key.code is Esc || key.code is Tab,
        ensures
            edit_key_effect(*old(self), *final(self), key),
    {
        proof {
            reveal(edit_key_effect);
        }
        if key.code == KeyCode::Esc {
            self.close_edit_form();
        } else {
            let f = next_edit_field_of(self.edit_popup_state.selected_field);
            self.select_edit_field(f);
        }
    }

    #[verifier::spinoff_prover]
    fn edit_form_enter(&mut self, key: KeyPress)
        requires
            key.code is Enter,
        ensures
            edit_key_effect(*old(self), *final(self), key),
    {
        proof {
            reveal(edit_key_effect);
        }
        let field = self.edit_popup_state.selected_field;
        if field == EditField::Name || field == EditField::Description {
            self.select_edit_field(next_edit_field_of(field));
        } else if !textarea_is_blank(&self.edit_popup_state.name_textarea) {
            self.submit_edit_form();
        } else {
            proof {
                lemma_nothing_changed(*self);
            }
        }
    }

    #[verifier::spinoff_prover]
    fn edit_form_arrow(&mut self, key: KeyPress)
        requires
            old(self).wf(),
            arrow_up_or_down(key.code),
        ensures
            edit_key_effect(*old(self), *final(self), key),
    {
        proof {
            reveal(edit_key_effect);
        }
        let down = key.code == KeyCode::Down;
        let field = self.edit_popup_state.selected_field;
        if field == EditField::Type {
            let i = self.edit_popup_state.story_type_index;
            let i = if down {
                next_index(i, 3)
            } else {
                prev_index(i, 3)
            };
            self.set_edit_type(i);
        } else if field == EditField::Epic {
            let n = self.epics.len() + 1;
            let i = if down {
                next_index(self.edit_popup_state.epic_selector_index, n)
            } else {
                prev_index(self.edit_popup_state.epic_selector_index, n)
            };
            let id = epic_at_choice(&self.epics, i);
            self.set_edit_epic(i, id);
        } else {
            self.edit_form_text(key.code);
        }
    }

    #[verifier::spinoff_prover]
    fn edit_form_type(&mut self, key: KeyPress)
        requires
            !(key.code is Esc),
            !(key.code is Tab),
            !(key.code is Enter),
            !arrow_up_or_down(key.code),
        ensures
            edit_key_effect(*old(self), *final(self), key),
    {
        proof {
            reveal(edit_key_effect);
        }
        self.edit_form_text(key.code);
    }

    /// Hands a key to the name or the description, whichever is selected.
    #[verifier::spinoff_prover]
    fn edit_form_text(&mut self, k: KeyCode)
        ensures
            final(self).show_edit_popup == old(self).show_edit_popup,
            final(self).edit_story_requested == old(self).edit_story_requested,
            final(self).edit_popup_state.selected_field == old(self).edit_popup_state.selected_field,
            final(self).edit_popup_state.story_id == old(self).edit_popup_state.story_id,
            edit_form_typed(old(self).edit_popup_state, final(self).edit_popup_state, k),
            only_edit(*old(self), *final(self)),
    {
        proof {
            reveal(edit_form_typed);
            reveal(only_edit);
        }
        let field = self.edit_popup_state.selected_field;
        if field == EditField::Name {
            textarea_input(&mut self.edit_popup_state.name_textarea, k);
        } else if field == EditField::Description {
            textarea_input(&mut self.edit_popup_state.description_textarea, k);
        }
    }

    /// A key in the story creation popup (see `create_key_effect`).
    #[verifier::spinoff_prover]
    pub fn handle_create_key(&mut self, key: KeyPress)
        requires
            old(self).wf(),
        ensures
            create_key_effect(*old(self), *final(self), key),
    {
        let k = key.code;
        if k == KeyCode::Esc || k == KeyCode::Tab {
            self.create_form_leave_or_tab(key);
        } else if k == KeyCode::Enter {
            self.create_form_enter(key);
        } else if key_arrow_up_or_down(k) {
            self.create_form_arrow(key);
        } else {
            self.create_form_type(key);
        }
    }

    #[verifier::spinoff_prover]
    fn create_form_leave_or_tab(&mut self, key: KeyPress)
        requires
            key.code is Esc || key.code is Tab,
        ensures
            create_key_effect(*old(self), *final(self), key),
    {
        proof {
            reveal(create_key_effect);
        }
        if key.code == KeyCode::Esc {
            self.close_create_form();
        } else {
            let f = next_create_field_of(self.create_popup_state.selected_field);
            self.select_create_field(f);
        }
    }

    #[verifier::spinoff_prover]
    fn create_form_enter(&mut self, key: KeyPress)
        requires
            key.code is Enter,
        ensures
            create_key_effect(*old(self), *final(self), key),
    {
        proof {
            reveal(create_key_effect);
        }
        let field = self.create_popup_state.selected_field;
        if field == CreateField::Name || field == CreateField::Description {
            self.select_create_field(next_create_field_of(field));
        } else if !textarea_is_blank(&self.create_popup_state.name_textarea) {
            self.submit_create_form();
        } else {
            proof {
                lemma_nothing_changed(*self);
            }
        }
    }

    #[verifier::spinoff_prover]
    fn create_form_arrow(&mut self, key: KeyPress)
        requires
            old(self).wf(),
            arrow_up_or_down(key.code),
        ensures
            create_key_effect(*old(self), *final(self), key),
    {
        proof {
            reveal(create_key_effect);
        }
        let down = key.code == KeyCode::Down;
        let field = self.create_popup_state.selected_field;
        if field == CreateField::Type {
            let i = self.create_popup_state.story_type_index;
            let i = if down {
                next_index(i, 3)
            } else {
                prev_index(i, 3)
            };
            self.set_create_type(i);
        } else if field == CreateField::Epic {
            let n = self.epics.len() + 1;
            let i = if down {
                next_index(self.create_popup_state.epic_selector_index, n)
            } else {
                prev_index(self.create_popup_state.epic_selector_index, n)
            };
            let id = epic_at_choice(&self.epics, i);
            self.set_create_epic(i, id);
        } else {
            self.create_form_text(key.code);
        }
    }

    #[verifier::spinoff_prover]
    fn create_form_type(&mut self, key: KeyPress)
        requires
            !(key.code is Esc),
            !(key.code is Tab),
            !(key.code is Enter),
            !arrow_up_or_down(key.code),
        ensures
            create_key_effect(*old(self), *final(self), key),
    {
        proof {
            reveal(create_key_effect);
        }
        self.create_form_text(key.code);
    }

    /// Hands a key to the name or the description, whichever is selected.
    #[verifier::spinoff_prover]
    fn create_form_text(&mut self, k: KeyCode)
        ensures
            final(self).show_create_popup == old(self).show_create_popup,
            final(self).create_story_requested == old(self).create_story_requested,
            final(self).create_popup_state.selected_field == old(self).create_popup_state.selected_field,
            create_form_typed(old(self).create_popup_state, final(self).create_popup_state, k),
            only_create(*old(self), *final(self)),
    {
        proof {
            reveal(create_form_typed);
            reveal(only_create);
        }
        let field = self.create_popup_state.selected_field;
        if field == CreateField::Name {
            textarea_input(&mut self.create_popup_state.name_textarea, k);
        } else if field == CreateField::Description {
            textarea_input(&mut self.create_popup_state.description_textarea, k);
        }
    }

    /// A key in the state selector (see `state_selector_key_effect`).
    #[verifier::spinoff_prover]
    pub fn handle_state_selector_key(&mut self, key: KeyPress)
        requires
            old(self).wf(),
        ensures
            state_selector_key_effect(*old(self), *final(self), key),
    {
        proof {
            reveal(state_selector_key_effect);
        }
        let k = key.code;
        if key_moves_down(k) {
            self.step_state_selection(true);
        } else if key_moves_up(k) {
            self.step_state_selection(false);
        } else if k == KeyCode::Esc {
            self.close_state_selector();
        } else {
            proof {
                reveal(unchanged);
                lemma_nothing_changed(*self);
            }
        }
    }

    /// A key on the board, no popup open (see `board_key_effect`).
    #[verifier::spinoff_prover]
    pub fn handle_board_key(&mut self, key: KeyPress)
        requires
            old(self).wf(),
            old(self).detail_scroll_offset < usize::MAX,
        ensures
            board_key_effect(*old(self), *final(self), key),
    {
        proof {
            reveal(board_key_effect);
        }
        let k = key.code;
        if key_is_char(k, 'q') || key_moves_down(k) || key_moves_up(k) {
            self.board_move_key(key);
        } else if k == KeyCode::Esc || key_is_char(k, 'c') || key_moves_right(k) {
            self.board_detail_key(k);
        } else if key_moves_left(k) || k == KeyCode::Enter || key_is_char(k, ' ') {
            self.board_column_key(k);
        } else if key_is_char(k, 'o') || key_is_char(k, 'a') || key_is_char(k, 'E') {
            self.board_create_key(k);
        } else if key_is_char(k, 'e') || key_is_char(k, 'n') || key_is_char(k, 'v') {
            self.board_story_key(k);
        } else if key_is_char(k, 'r') || key_is_char(k, 'f') || key_is_char(k, '?') {
            self.board_view_key(k);
        } else if key_is_char(k, 'g') {
            self.open_git_popup(true);
        } else {
            proof {
                reveal(unchanged);
            }
        }
    }

    /// `q`, or moving down or up.
    #[verifier::spinoff_prover]
    fn board_move_key(&mut self, key: KeyPress)
        requires
            old(self).wf(),
            old(self).detail_scroll_offset < usize::MAX,
            is_char(key.code, 'q') || moves_down(key.code) || moves_up(key.code),
        ensures
            board_key_effect(*old(self), *final(self), key),
    {
        proof {
            reveal(board_key_effect);
        }
        let k = key.code;
        if key_is_char(k, 'q') {
            self.quit_key(k);
        } else if key_moves_down(k) {
            self.down_key(k);
        } else {
            self.up_key(k);
        }
    }

    /// `q` on the board.
    #[verifier::spinoff_prover]
    fn quit_key(&mut self, k: KeyCode)
        requires
            is_char(k, 'q'),
        ensures
            board_move_effect(*old(self), *final(self), k),
    {
        proof {
            reveal(board_move_effect);
        }
        self.quit();
    }

    /// Moving down on the board.
    #[verifier::spinoff_prover]
    fn down_key(&mut self, k: KeyCode)
        requires
            old(self).wf(),
            old(self).detail_scroll_offset < usize::MAX,
            moves_down(k),
            !is_char(k, 'q'),
        ensures
            board_move_effect(*old(self), *final(self), k),
    {
        proof {
            reveal(board_move_effect);
        }
        if self.show_detail {
            self.scroll_detail_down();
        } else {
            self.next();
        }
    }

    /// Moving up on the board.
    #[verifier::spinoff_prover]
    fn up_key(&mut self, k: KeyCode)
        requires
            old(self).wf(),
            moves_up(k),
            !is_char(k, 'q'),
            !moves_down(k),
        ensures
            board_move_effect(*old(self), *final(self), k),
    {
        proof {
            reveal(board_move_effect);
        }
        if self.show_detail {
            self.scroll_detail_up();
        } else {
            self.previous();
        }
    }

    /// Asks the program to end.
    #[verifier::spinoff_prover]
    fn quit(&mut self)
        ensures
            *final(self) == (App { should_quit: true, ..*old(self) }),
    {
        self.should_quit = true;
    }

    /// Closes the detail view, back at its top.
    #[verifier::spinoff_prover]
    fn close_details(&mut self)
        ensures
            *final(self) == (App { show_detail: false, detail_scroll_offset: 0, ..*old(self) }),
    {
        self.show_detail = false;
        self.detail_scroll_offset = 0;
    }

    /// Esc, `c`, or moving right.
    #[verifier::spinoff_prover]
    fn board_detail_key(&mut self, k: KeyCode)
        requires
            old(self).wf(),
            k is Esc || is_char(k, 'c') || moves_right(k),
        ensures
            board_detail_effect(*old(self), *final(self), k),
    {
        proof {
            reveal(board_detail_effect);
        }
        if k == KeyCode::Esc {
            if self.show_detail {
                self.close_details();
            }
        } else if key_is_char(k, 'c') {
            if self.show_detail {
                self.open_comment_popup();
            } else {
                proof {
                    lemma_comment_form_kept(*self);
                }
            }
        } else if !self.list_view_mode {
            self.next_column();
        }
    }

    /// Moving left, Enter, or space.
    #[verifier::spinoff_prover]
    fn board_column_key(&mut self, k: KeyCode)
        requires
            old(self).wf(),
            moves_left(k) || k is Enter || is_char(k, ' '),
        ensures
            board_column_effect(*old(self), *final(self), k),
    {
        proof {
            reveal(board_column_effect);
        }
        if key_moves_left(k) {
            if !self.list_view_mode {
                self.previous_column();
            }
        } else if k == KeyCode::Enter {
            self.toggle_detail();
        } else {
            self.toggle_state_selector();
        }
    }

    /// `o`, `a` or `E`.
    #[verifier::spinoff_prover]
    fn board_create_key(&mut self, k: KeyCode)
        requires
            old(self).wf(),
            is_char(k, 'o') || is_char(k, 'a') || is_char(k, 'E'),
        ensures
            board_create_effect(*old(self), *final(self), k),
    {
        proof {
            reveal(board_create_effect);
        }
        if key_is_char(k, 'o') {
            if self.get_selected_story().is_some() {
                self.ask_to_take_story();
            }
        } else if key_is_char(k, 'a') {
            self.open_create_popup();
        } else {
            self.open_create_epic_popup();
        }
    }

    /// Asks for the selected story to be taken.
    #[verifier::spinoff_prover]
    fn ask_to_take_story(&mut self)
        ensures
            *final(self) == (App { take_ownership_requested: true, ..*old(self) }),
    {
        self.take_ownership_requested = true;
    }

    /// `e`, `n` or `v`.
    #[verifier::spinoff_prover]
    fn board_story_key(&mut self, k: KeyCode)
        requires
            old(self).wf(),
            is_char(k, 'e') || is_char(k, 'n') || is_char(k, 'v'),
        ensures
            board_story_effect(*old(self), *final(self), k),
    {
        proof {
            reveal(board_story_effect);
        }
        if key_is_char(k, 'e') {
            self.open_edit_popup(true);
        } else if key_is_char(k, 'n') {
            self.request_load_more();
        } else {
            self.toggle_view_mode();
        }
    }

    /// `r`, `f` or `?`.
    #[verifier::spinoff_prover]
    fn board_view_key(&mut self, k: KeyCode)
        requires
            is_char(k, 'r') || is_char(k, 'f') || is_char(k, '?'),
        ensures
            board_view_effect(*old(self), *final(self), k),
    {
        proof {
            reveal(board_view_effect);
        }
        if key_is_char(k, 'r') {
            self.refresh_stories();
        } else if key_is_char(k, 'f') {
            self.toggle_epic_selector();
        } else {
            self.open_help();
        }
    }

    /// Opens the help popup on its first command.
    #[verifier::spinoff_prover]
    fn open_help(&mut self)
        ensures
            *final(self) == (App { show_help_popup: true, help_selected_index: 0, ..*old(self) }),
    {
        self.show_help_popup = true;
        self.help_selected_index = 0;
    }

    /// Opens the comment popup, empty, for the selected story, if any.
    #[verifier::spinoff_prover]
    fn open_comment_popup(&mut self)
        requires
            old(self).wf(),
        ensures
            match old(self).selected_story() {
                Some(s) => final(self).show_comment_popup && final(self).comment_popup_state.is_fresh_for(s.id),
                None => final(self).show_comment_popup == old(self).show_comment_popup,
            },
            only_comment_form_changed(*old(self), *final(self)),
    {
        let st = match self.get_selected_story() {
            Some(story) => Some(CommentPopupState::for_story(story.id)),
            None => None,
        };
        match st {
            Some(st) => self.show_comment_form(st),
            None => {
                proof {
                    lemma_comment_form_kept(*self);
                }
            },
        }
    }

    /// Shows the comment popup with the form `st`.
    #[verifier::spinoff_prover]
    fn show_comment_form(&mut self, st: CommentPopupState)
        ensures
            final(self).show_comment_popup,
            final(self).comment_popup_state == st,
            only_comment_form_changed(*old(self), *final(self)),
    {
        proof {
            reveal(only_comment_form_changed);
        }
        self.show_comment_popup = true;
        self.comment_popup_state = st;
    }
}

/// The field after `f` in the editing popup (see `next_edit_field`).
fn next_edit_field_of(f: EditField) -> (r: EditField)
    ensures
        r == crate::ui::keymap::next_edit_field(f),
{
    match f {
        EditField::Name => EditField::Description,
        EditField::Description => EditField::Type,
        EditField::Type => EditField::Name,
        EditField::Epic => EditField::Name,
    }
}

/// The field after `f` in the creation popup (see `next_create_field`).
fn next_create_field_of(f: CreateField) -> (r: CreateField)
    ensures
        r == crate::ui::keymap::next_create_field(f),
{
    match f {
        CreateField::Name => CreateField::Description,
        CreateField::Description => CreateField::Type,
        CreateField::Type => CreateField::Name,
        CreateField::Epic => CreateField::Name,
    }
}

/// Leaving the interface as it is changes no comment form.
proof fn lemma_comment_form_kept(a: App)
    ensures
        only_comment_form_changed(a, a),
{
    reveal(only_comment_form_changed);
}

/// Leaving the interface as it is changes no editing form.
proof fn lemma_edit_form_kept(a: App)
    ensures
        only_edit_form_changed(a, a),
{
    reveal(only_edit_form_changed);
}

/// Leaving the interface as it is changes no git form.
proof fn lemma_git_form_kept(a: App)
    ensures
        only_git_form_changed(a, a),
{
    reveal(only_git_form_changed);
}

} // verus!

//! What a key press does to the interface, popup by popup, stated over the
//! interface before (`a`) and after (`b`) the key.
use crate::git::GitRepoType;
use crate::git::naming::{quick_branch, suggested_branch};
use crate::story_editor::story_types;
use crate::ui::app::{step_down, wrap_next, wrap_prev, App};
use crate::ui::commands::epic_choice;
use crate::ui::input::{git_choice_down, git_choice_up};
use crate::ui::keys::{KeyCode, KeyPress};
use crate::ui::paging::chosen_filter;
use crate::ui::popups::{
    CreateEpicField, CreateField, CreatePopupState, EditField, EditPopupState, GitBranchOption, GitResultOption,
};
use crate::ui::textarea::{blank_text, textarea_lines, typed_lines};
use vstd::prelude::*;

verus! {

/// A character key.
pub open spec fn is_char(k: KeyCode, c: char) -> bool {
    match k {
        KeyCode::Char(d) => d == c,
        _ => false,
    }
}

/// `j` or the down arrow.
pub open spec fn moves_down(k: KeyCode) -> bool {
    match k {
        KeyCode::Down => true,
        KeyCode::Char(c) => c == 'j',
        _ => false,
    }
}

/// `k` or the up arrow.
pub open spec fn moves_up(k: KeyCode) -> bool {
    match k {
        KeyCode::Up => true,
        KeyCode::Char(c) => c == 'k',
        _ => false,
    }
}

/// `l` or the right arrow.
pub open spec fn moves_right(k: KeyCode) -> bool {
    match k {
        KeyCode::Right => true,
        KeyCode::Char(c) => c == 'l',
        _ => false,
    }
}

/// `h` or the left arrow.
pub open spec fn moves_left(k: KeyCode) -> bool {
    match k {
        KeyCode::Left => true,
        KeyCode::Char(c) => c == 'h',
        _ => false,
    }
}

/// One of the four keys that move a choice up or down.
pub open spec fn switches_choice(k: KeyCode) -> bool {
    match k {
        KeyCode::Up => true,
        KeyCode::Down => true,
        KeyCode::Char(c) => c == 'k' || c == 'j',
        _ => false,
    }
}

/// An arrow up or down (the keys that cycle a popup's type and epic).
pub open spec fn arrow_up_or_down(k: KeyCode) -> bool {
    match k {
        KeyCode::Up => true,
        KeyCode::Down => true,
        _ => false,
    }
}

/// Esc, `q` or `?`: the keys that close the help popup.
pub open spec fn closes_help(k: KeyCode) -> bool {
    match k {
        KeyCode::Esc => true,
        KeyCode::Char(c) => c == 'q' || c == '?',
        _ => false,
    }
}

/// Esc or Enter.
pub open spec fn esc_or_enter(k: KeyCode) -> bool {
    match k {
        KeyCode::Esc => true,
        KeyCode::Enter => true,
        _ => false,
    }
}

/// Tab or `e`: the keys that start editing the branch name.
pub open spec fn edits_branch(k: KeyCode) -> bool {
    match k {
        KeyCode::Tab => true,
        KeyCode::Char(c) => c == 'e',
        _ => false,
    }
}

/// Ctrl+Enter: the key that posts a comment.
pub open spec fn submits(key: KeyPress) -> bool {
    key.code is Enter && key.ctrl
}

/// The field Tab moves to in the editing popup: name, description, type,
/// and back to the name (from the epic field too).
pub open spec fn next_edit_field(f: EditField) -> EditField {
    match f {
        EditField::Name => EditField::Description,
        EditField::Description => EditField::Type,
        EditField::Type => EditField::Name,
        EditField::Epic => EditField::Name,
    }
}

/// The field Tab moves to in the creation popup: name, description, type,
/// and back to the name (from the epic field too).
pub open spec fn next_create_field(f: CreateField) -> CreateField {
    match f {
        CreateField::Name => CreateField::Description,
        CreateField::Description => CreateField::Type,
        CreateField::Type => CreateField::Name,
        CreateField::Epic => CreateField::Name,
    }
}

/// The epic chosen at an index of an epic choice among `n` epics: none at
/// 0, the epic's id otherwise.
pub open spec fn epic_at(a: App, index: usize) -> Option<i64> {
    if index == 0 || index > a.epics@.len() {
        None
    } else {
        Some(a.epics@[index - 1].id)
    }
}

/// The index after an up or down key among `n` choices.
pub open spec fn cycled(i: usize, n: int, down: bool) -> usize {
    if down {
        wrap_next(i, n)
    } else {
        wrap_prev(i, n)
    }
}

/// The interface after moving down the list or the selected column
/// (wrapping to the first story), nothing else changed.
#[verifier::opaque]
pub open spec fn moved_down(a: App) -> App {
    if a.list_view_mode {
        if a.all_stories_list@.len() > 0 {
            App { list_selected_index: wrap_next(a.list_selected_index, a.all_stories_list@.len() as int), ..a }
        } else {
            a
        }
    } else if a.column_len() > 0 {
        App { selected_row: wrap_next(a.selected_row, a.column_len()), ..a }
    } else {
        a
    }
}

/// The interface after moving up the list or the selected column
/// (wrapping to the last story), nothing else changed.
#[verifier::opaque]
pub open spec fn moved_up(a: App) -> App {
    if a.list_view_mode {
        if a.all_stories_list@.len() > 0 {
            App { list_selected_index: wrap_prev(a.list_selected_index, a.all_stories_list@.len() as int), ..a }
        } else {
            a
        }
    } else if a.column_len() > 0 {
        App { selected_row: wrap_prev(a.selected_row, a.column_len()), ..a }
    } else {
        a
    }
}

/// What the help popup's command at `index` does: 4 opens the details, 5
/// switches the view, 6 the epic selector, 7 refreshes, 8 loads more, 9
/// opens the state selector, 10 asks to take the story, 11 edits it, 12 adds
/// a story, 13 an epic, 14 opens the git popup, 16 quits; the others only
/// inform, and running them changes nothing but closing the popup.
#[verifier::opaque]
pub open spec fn help_command_effect(a: App, b: App, index: usize) -> bool {
    if index == 4 {
        b.show_detail == (a.show_detail || (a.selected_story() is Some && a.column_has_stories()))
    } else if index == 5 {
        b.list_view_mode == !a.list_view_mode
    } else if index == 6 {
        b.show_epic_selector == !a.show_epic_selector
    } else if index == 7 {
        b.refresh_requested && b.all_stories_unfiltered@.len() == 0 && b.next_page_token is None
    } else if index == 8 {
        b.load_more_requested == (a.load_more_requested || (a.next_page_token is Some && !a.is_loading))
    } else if index == 9 {
        b.show_state_selector == (a.show_state_selector || (a.selected_story() is Some && a.column_len() > 0))
    } else if index == 10 {
        b.take_ownership_requested
    } else if index == 11 {
        match a.selected_story() {
            Some(s) => b.show_edit_popup && b.edit_popup_state.shows_story(s),
            None => b.show_edit_popup == a.show_edit_popup,
        }
    } else if index == 12 {
        b.show_create_popup && b.create_popup_state.is_fresh()
    } else if index == 13 {
        b.show_create_epic_popup && b.create_epic_popup_state.selected_field == CreateEpicField::Name
    } else if index == 14 {
        git_popup_opened(a, b, false)
    } else if index == 16 {
        b.should_quit
    } else {
        only_help_closed(a, b)
    }
}

/// `b` is `a` with the help popup closed, and nothing else changed.
#[verifier::opaque]
pub open spec fn only_help_closed(a: App, b: App) -> bool {
    b == (App { show_help_popup: false, ..a })
}

/// `b` is `a`: the key changed nothing.
#[verifier::opaque]
pub open spec fn unchanged(a: App, b: App) -> bool {
    b == a
}

/// The git popup opened for the selected story inside a repository, with
/// the board's branch name when `quick`, the suggested one otherwise.
pub open spec fn git_popup_opened(a: App, b: App, quick: bool) -> bool {
    match a.selected_story() {
        Some(s) => if a.git_context.repo_type != GitRepoType::NotARepo {
            b.show_git_popup && b.git_popup_state.offers(
                if quick {
                    quick_branch(s)
                } else {
                    suggested_branch(s)
                },
                s.id,
                a.git_context.repo_type == GitRepoType::Bare,
            )
        } else {
            b.show_git_popup == a.show_git_popup
        },
        None => b.show_git_popup == a.show_git_popup,
    }
}

/// The editing popup opened for the selected story, the epic choice on the
/// story's epic; nothing else changes (no save is asked for).
pub open spec fn edit_popup_opened(a: App, b: App) -> bool {
    &&& match a.selected_story() {
        Some(s) => b.show_edit_popup && b.edit_popup_state.shows_story_with(s, epic_choice(a.epics@, s.epic_id)),
        None => b.show_edit_popup == a.show_edit_popup,
    }
    &&& only_edit_form_changed(a, b)
}

/// A key in the help popup: Esc, `q` or `?` close it; up and down move
/// through its seventeen commands; Enter closes it and runs the chosen one.
#[verifier::opaque]
pub open spec fn help_key_effect(a: App, b: App, key: KeyPress) -> bool {
    let k = key.code;
    if closes_help(k) {
        only_help(a, b) && !b.show_help_popup && b.help_selected_index == a.help_selected_index
    } else if moves_up(k) {
        only_help(a, b) && b.show_help_popup == a.show_help_popup && b.help_selected_index == step_down(a.help_selected_index)
    } else if moves_down(k) {
        only_help(a, b) && b.show_help_popup == a.show_help_popup && b.help_selected_index == (if a.help_selected_index < 16 {
            a.help_selected_index + 1
        } else {
            a.help_selected_index as int
        })
    } else if k is Enter {
        !b.show_help_popup && help_command_effect(a, b, a.help_selected_index)
    } else {
        unchanged(a, b)
    }
}

/// A key in the comment popup: Esc drops the comment and closes it;
/// Ctrl+Enter asks to post a comment that is not blank and closes it; any
/// other key goes into the comment's text.
#[verifier::opaque]
pub open spec fn comment_key_effect(a: App, b: App, key: KeyPress) -> bool {
    let t = a.comment_popup_state.comment_textarea;
    if key.code is Esc {
        !b.show_comment_popup && b.comment_popup_state.is_fresh_for(0) && b.add_comment_requested
            == a.add_comment_requested
    } else if submits(key) {
        &&& b.comment_popup_state == a.comment_popup_state
        &&& if blank_text(t) {
            b.show_comment_popup == a.show_comment_popup && b.add_comment_requested == a.add_comment_requested
        } else {
            b.add_comment_requested && !b.show_comment_popup
        }
    } else {
        &&& b.show_comment_popup == a.show_comment_popup
        &&& b.add_comment_requested == a.add_comment_requested
        &&& b.comment_popup_state.story_id == a.comment_popup_state.story_id
        &&& textarea_lines(b.comment_popup_state.comment_textarea) == typed_lines(t, key.code)
    }
}

/// A key in the git result popup: Esc closes it, as does Enter on
/// "continue"; Enter on "exit and change" asks to quit and to change to the
/// worktree; up and down switch the choice after a worktree was made.
#[verifier::opaque]
pub open spec fn git_result_key_effect(a: App, b: App, key: KeyPress) -> bool {
    let r = a.git_result_state;
    if key.code is Esc {
        !b.show_git_result_popup && b.should_quit == a.should_quit
    } else if key.code is Enter {
        if r.selected_option == GitResultOption::Continue {
            !b.show_git_result_popup && b.should_quit == a.should_quit
        } else {
            b.should_quit && match r.worktree_path {
                Some(p) => b.exit_directory is Some && b.exit_directory->0@ == p@,
                None => b.exit_directory == a.exit_directory,
            }
        }
    } else if switches_choice(key.code) {
        &&& b.show_git_result_popup == a.show_git_result_popup
        &&& b.git_result_state.selected_option == (if r.worktree_path is Some && r.success {
            match r.selected_option {
                GitResultOption::Continue => GitResultOption::ExitAndChange,
                GitResultOption::ExitAndChange => GitResultOption::Continue,
            }
        } else {
            r.selected_option
        })
    } else {
        unchanged(a, b)
    }
}

/// A key in the git branch popup. While the branch name is edited, Esc and
/// Enter stop editing and other keys go into its text; so too while the
/// worktree path is edited. Otherwise Esc closes the popup; Enter asks for the chosen
/// operation (or only closes on "cancel"); Tab and `e` edit the name; `w`
/// edits the path in a bare repository; up and down move the choice.
#[verifier::opaque]
pub open spec fn git_popup_key_effect(a: App, b: App, key: KeyPress) -> bool {
    let g = a.git_popup_state;
    let h = b.git_popup_state;
    let k = key.code;
    let bare = a.git_context.repo_type == GitRepoType::Bare;
    &&& only_git(a, b)
    &&& if g.editing_branch_name {
        &&& b.show_git_popup == a.show_git_popup
        &&& b.git_branch_requested == a.git_branch_requested
        &&& if esc_or_enter(k) {
            !h.editing_branch_name
        } else {
            &&& h.editing_branch_name
            &&& h.worktree_path_textarea == g.worktree_path_textarea
            &&& textarea_lines(h.branch_name_textarea) == typed_lines(g.branch_name_textarea, k)
        }
    } else if g.editing_worktree_path {
        &&& b.show_git_popup == a.show_git_popup
        &&& b.git_branch_requested == a.git_branch_requested
        &&& if esc_or_enter(k) {
            !h.editing_worktree_path
        } else {
            &&& h.editing_worktree_path
            &&& h.branch_name_textarea == g.branch_name_textarea
            &&& textarea_lines(h.worktree_path_textarea) == typed_lines(g.worktree_path_textarea, k)
        }
    } else if k is Esc {
        !b.show_git_popup && h.is_fresh() && b.git_branch_requested == a.git_branch_requested
    } else if k is Enter {
        !b.show_git_popup && b.git_branch_requested == (a.git_branch_requested || g.selected_option
            != GitBranchOption::Cancel)
    } else if edits_branch(k) {
        h.editing_branch_name && b.show_git_popup == a.show_git_popup
    } else if is_char(k, 'w') {
        h.editing_worktree_path == (bare || g.editing_worktree_path) && b.show_git_popup == a.show_git_popup
    } else if moves_up(k) {
        h.selected_option == git_choice_up(g.selected_option, bare) && b.show_git_popup == a.show_git_popup
    } else if moves_down(k) {
        h.selected_option == git_choice_down(g.selected_option, bare) && b.show_git_popup == a.show_git_popup
    } else {
        b.show_git_popup == a.show_git_popup && b.git_branch_requested == a.git_branch_requested
    }
}

/// A key in the epic selector: down and up move the choice, Enter applies
/// it, Esc closes the selector.
#[verifier::opaque]
pub open spec fn epic_selector_key_effect(a: App, b: App, key: KeyPress) -> bool {
    let k = key.code;
    let n = (a.epics@.len() + 1) as int;
    if moves_down(k) {
        b.show_epic_selector == a.show_epic_selector && b.epic_selector_index == wrap_next(a.epic_selector_index, n)
    } else if moves_up(k) {
        b.show_epic_selector == a.show_epic_selector && b.epic_selector_index == wrap_prev(a.epic_selector_index, n)
    } else if k is Enter {
        &&& !b.show_epic_selector
        &&& b.selected_epic_filter == chosen_filter(a.epic_selector_index, a.epics@, a.selected_epic_filter)
        &&& b.shows_filtered(a.all_stories_unfiltered.deep_view())
    } else if k is Esc {
        !b.show_epic_selector && b.epic_selector_index == 0 && b.selected_epic_filter == a.selected_epic_filter
    } else {
        unchanged(a, b)
    }
}

/// A key in the epic creation popup: Esc drops the form; Tab switches the
/// field; Enter moves to the description, and there asks to create an epic
/// whose name is not blank; other keys go into the selected field's text.
/// Tab, Enter that does not submit, and typing change nothing but this
/// popup.
#[verifier::opaque]
pub open spec fn create_epic_key_effect(a: App, b: App, key: KeyPress) -> bool {
    let f = a.create_epic_popup_state.selected_field;
    let k = key.code;
    if k is Esc {
        !b.show_create_epic_popup && b.create_epic_popup_state.is_fresh() && b.create_epic_requested
            == a.create_epic_requested
    } else if k is Tab {
        only_epic(a, b) && b.show_create_epic_popup == a.show_create_epic_popup && b.create_epic_popup_state.selected_field == (
        if f == CreateEpicField::Name {
            CreateEpicField::Description
        } else {
            CreateEpicField::Name
        })
    } else if k is Enter {
        if f == CreateEpicField::Name {
            only_epic(a, b) && b.show_create_epic_popup == a.show_create_epic_popup
                && b.create_epic_popup_state.selected_field == CreateEpicField::Description
        } else if blank_text(a.create_epic_popup_state.name_textarea) {
            only_epic(a, b) && b.show_create_epic_popup == a.show_create_epic_popup && b.create_epic_requested
                == a.create_epic_requested
        } else {
            b.create_epic_requested && !b.show_create_epic_popup
        }
    } else {
        &&& only_epic(a, b)
        &&& b.show_create_epic_popup == a.show_create_epic_popup
        &&& b.create_epic_requested == a.create_epic_requested
        &&& b.create_epic_popup_state.selected_field == f
        &&& if f == CreateEpicField::Name {
            &&& textarea_lines(b.create_epic_popup_state.name_textarea) == typed_lines(
                a.create_epic_popup_state.name_textarea,
                k,
            )
            &&& b.create_epic_popup_state.description_textarea == a.create_epic_popup_state.description_textarea
        } else {
            &&& textarea_lines(b.create_epic_popup_state.description_textarea) == typed_lines(
                a.create_epic_popup_state.description_textarea,
                k,
            )
            &&& b.create_epic_popup_state.name_textarea == a.create_epic_popup_state.name_textarea
        }
    }
}

/// A key typed into the editing form: the selected name or description
/// gets it (its lines become `typed_lines`) and the other keeps its text;
/// on the type and epic fields the form stays as it is.
#[verifier::opaque]
pub open spec fn edit_form_typed(e: EditPopupState, e2: EditPopupState, k: KeyCode) -> bool {
    if e.selected_field == EditField::Name {
        textarea_lines(e2.name_textarea) == typed_lines(e.name_textarea, k) && e2.description_textarea
            == e.description_textarea
    } else if e.selected_field == EditField::Description {
        textarea_lines(e2.description_textarea) == typed_lines(e.description_textarea, k) && e2.name_textarea
            == e.name_textarea
    } else {
        e2 == e
    }
}

/// A key typed into the story creation form, as in `edit_form_typed`.
#[verifier::opaque]
pub open spec fn create_form_typed(c: CreatePopupState, c2: CreatePopupState, k: KeyCode) -> bool {
    if c.selected_field == CreateField::Name {
        textarea_lines(c2.name_textarea) == typed_lines(c.name_textarea, k) && c2.description_textarea
            == c.description_textarea
    } else if c.selected_field == CreateField::Description {
        textarea_lines(c2.description_textarea) == typed_lines(c.description_textarea, k) && c2.name_textarea
            == c.name_textarea
    } else {
        c2 == c
    }
}

/// A key in the editing popup: Esc drops the form; Tab moves from name to
/// description to type and back to the name; Enter moves from name to
/// description to type, and on the type (or epic) field asks to save when
/// the name is not blank; up and down cycle the type on the type field and
/// the epic on the epic field; other keys go into the name or the
/// description, whichever is selected (see `edit_form_typed`).
#[verifier::opaque]
pub open spec fn edit_key_effect(a: App, b: App, key: KeyPress) -> bool {
    let e = a.edit_popup_state;
    let e2 = b.edit_popup_state;
    let k = key.code;
    &&& only_edit(a, b)
    &&& if k is Esc {
        !b.show_edit_popup && e2.is_fresh() && b.edit_story_requested == a.edit_story_requested
    } else if k is Tab {
        b.show_edit_popup == a.show_edit_popup && e2.selected_field == next_edit_field(e.selected_field)
    } else if k is Enter {
        if e.selected_field == EditField::Name || e.selected_field == EditField::Description {
            b.show_edit_popup == a.show_edit_popup && e2.selected_field == next_edit_field(e.selected_field)
        } else if blank_text(e.name_textarea) {
            b.show_edit_popup == a.show_edit_popup && b.edit_story_requested == a.edit_story_requested
        } else {
            b.edit_story_requested && !b.show_edit_popup
        }
    } else if arrow_up_or_down(k) && e.selected_field == EditField::Type {
        &&& e2.story_type_index == cycled(e.story_type_index, 3, k is Down)
        &&& e2.story_type@ == story_types()[e2.story_type_index as int]
        &&& e2.selected_field == e.selected_field
        &&& e2.epic_id == e.epic_id
        &&& b.show_edit_popup == a.show_edit_popup
        &&& b.edit_story_requested == a.edit_story_requested
    } else if arrow_up_or_down(k) && e.selected_field == EditField::Epic {
        &&& e2.epic_selector_index == cycled(e.epic_selector_index, (a.epics@.len() + 1) as int, k is Down)
        &&& e2.epic_id == epic_at(a, e2.epic_selector_index)
        &&& e2.selected_field == e.selected_field
        &&& e2.story_type_index == e.story_type_index
        &&& b.show_edit_popup == a.show_edit_popup
        &&& b.edit_story_requested == a.edit_story_requested
    } else {
        &&& b.show_edit_popup == a.show_edit_popup
        &&& b.edit_story_requested == a.edit_story_requested
        &&& e2.selected_field == e.selected_field
        &&& e2.story_id == e.story_id
        &&& edit_form_typed(e, e2, k)
    }
}

/// A key in the story creation popup, as in the editing popup: Esc drops
/// the form; Tab moves from name to description to type and back to the
/// name; Enter moves from name to description to type, and on the type (or
/// epic) field asks to create a story whose name is not blank; up and down
/// cycle the type and the epic; other keys go into the name or the
/// description, whichever is selected (see `create_form_typed`).
#[verifier::opaque]
pub open spec fn create_key_effect(a: App, b: App, key: KeyPress) -> bool {
    let c = a.create_popup_state;
    let c2 = b.create_popup_state;
    let k = key.code;
    &&& only_create(a, b)
    &&& if k is Esc {
        !b.show_create_popup && c2.is_fresh() && b.create_story_requested == a.create_story_requested
    } else if k is Tab {
        b.show_create_popup == a.show_create_popup && c2.selected_field == next_create_field(c.selected_field)
    } else if k is Enter {
        if c.selected_field == CreateField::Name || c.selected_field == CreateField::Description {
            b.show_create_popup == a.show_create_popup && c2.selected_field == next_create_field(c.selected_field)
        } else if blank_text(c.name_textarea) {
            b.show_create_popup == a.show_create_popup && b.create_story_requested == a.create_story_requested
        } else {
            b.create_story_requested && !b.show_create_popup
        }
    } else if arrow_up_or_down(k) && c.selected_field == CreateField::Type {
        &&& c2.story_type_index == cycled(c.story_type_index, 3, k is Down)
        &&& c2.story_type@ == story_types()[c2.story_type_index as int]
        &&& c2.selected_field == c.selected_field
        &&& c2.epic_id == c.epic_id
        &&& b.show_create_popup == a.show_create_popup
        &&& b.create_story_requested == a.create_story_requested
    } else if arrow_up_or_down(k) && c.selected_field == CreateField::Epic {
        &&& c2.epic_selector_index == cycled(c.epic_selector_index, (a.epics@.len() + 1) as int, k is Down)
        &&& c2.epic_id == epic_at(a, c2.epic_selector_index)
        &&& c2.selected_field == c.selected_field
        &&& c2.story_type_index == c.story_type_index
        &&& b.show_create_popup == a.show_create_popup
        &&& b.create_story_requested == a.create_story_requested
    } else {
        &&& b.show_create_popup == a.show_create_popup
        &&& b.create_story_requested == a.create_story_requested
        &&& c2.selected_field == c.selected_field
        &&& create_form_typed(c, c2, k)
    }
}

/// A key in the state selector: down and up move the choice, Esc closes it.
/// (Enter, which moves the story, is the caller's to handle.)
#[verifier::opaque]
pub open spec fn state_selector_key_effect(a: App, b: App, key: KeyPress) -> bool {
    let n = a.target_states().len();
    let k = key.code;
    &&& only_selector(a, b)
    &&& if moves_down(k) {
        b.show_state_selector == a.show_state_selector && b.state_selector_index == (if n > 0 {
            wrap_next(a.state_selector_index, n as int)
        } else {
            a.state_selector_index
        })
    } else if moves_up(k) {
        b.show_state_selector == a.show_state_selector && b.state_selector_index == (if n > 0 {
            wrap_prev(a.state_selector_index, n as int)
        } else {
            a.state_selector_index
        })
    } else if k is Esc {
        !b.show_state_selector && b.state_selector_index == 0
    } else {
        unchanged(a, b)
    }
}

/// A key on the board, with no popup open. Each group of keys has its
/// own effect below; a key of none of them changes nothing.
#[verifier::opaque]
pub open spec fn board_key_effect(a: App, b: App, key: KeyPress) -> bool {
    let k = key.code;
    if is_char(k, 'q') || moves_down(k) || moves_up(k) {
        board_move_effect(a, b, k)
    } else if k is Esc || is_char(k, 'c') || moves_right(k) {
        board_detail_effect(a, b, k)
    } else if moves_left(k) || k is Enter || is_char(k, ' ') {
        board_column_effect(a, b, k)
    } else if is_char(k, 'o') || is_char(k, 'a') || is_char(k, 'E') {
        board_create_effect(a, b, k)
    } else if is_char(k, 'e') || is_char(k, 'n') || is_char(k, 'v') {
        board_story_effect(a, b, k)
    } else if is_char(k, 'r') || is_char(k, 'f') || is_char(k, '?') {
        board_view_effect(a, b, k)
    } else if is_char(k, 'g') {
        git_popup_opened(a, b, true) && only_git_form_changed(a, b)
    } else {
        unchanged(a, b)
    }
}

/// `q` quits; down and up scroll the detail view when it is open and move
/// the selection otherwise. Nothing else changes.
#[verifier::opaque]
pub open spec fn board_move_effect(a: App, b: App, k: KeyCode) -> bool {
    if is_char(k, 'q') {
        b == (App { should_quit: true, ..a })
    } else if moves_down(k) {
        if a.show_detail {
            b == (App { detail_scroll_offset: (a.detail_scroll_offset + 1) as usize, ..a })
        } else {
            b == moved_down(a)
        }
    } else if a.show_detail {
        b == (App { detail_scroll_offset: step_down(a.detail_scroll_offset), ..a })
    } else {
        b == moved_up(a)
    }
}

/// Esc closes the detail view (back at its top); `c` in the detail view
/// opens the comment popup for the selected story; right moves to the next
/// column (in the column view), at its first row. Nothing else changes.
#[verifier::opaque]
pub open spec fn board_detail_effect(a: App, b: App, k: KeyCode) -> bool {
    if k is Esc {
        b == (if a.show_detail {
            App { show_detail: false, detail_scroll_offset: 0, ..a }
        } else {
            a
        })
    } else if is_char(k, 'c') {
        &&& match a.selected_story() {
            Some(s) => if a.show_detail {
                b.show_comment_popup && b.comment_popup_state.is_fresh_for(s.id)
            } else {
                b.show_comment_popup == a.show_comment_popup
            },
            None => b.show_comment_popup == a.show_comment_popup,
        }
        &&& only_comment_form_changed(a, b)
    } else {
        b == (if !a.list_view_mode && a.workflow_states@.len() > 0 {
            App {
                selected_column: wrap_next(a.selected_column, a.workflow_states@.len() as int),
                selected_row: 0,
                ..a
            }
        } else {
            a
        })
    }
}

/// Left moves to the previous column (in the column view), at its first
/// row; Enter opens or closes the detail view when the column has stories
/// (opening it at its top); space opens the state selector, on its first
/// state, when the column has stories. Nothing else changes.
#[verifier::opaque]
pub open spec fn board_column_effect(a: App, b: App, k: KeyCode) -> bool {
    if moves_left(k) {
        b == (if !a.list_view_mode && a.workflow_states@.len() > 0 {
            App {
                selected_column: wrap_prev(a.selected_column, a.workflow_states@.len() as int),
                selected_row: 0,
                ..a
            }
        } else {
            a
        })
    } else if k is Enter {
        b == (if !a.column_has_stories() {
            a
        } else if a.show_detail {
            App { show_detail: false, ..a }
        } else {
            App { show_detail: true, detail_scroll_offset: 0, ..a }
        })
    } else {
        b == (if a.column_len() > 0 {
            App { show_state_selector: true, state_selector_index: 0, ..a }
        } else {
            a
        })
    }
}

/// Only the comment popup's flag and form may differ between `a` and `b`.
#[verifier::opaque]
pub open spec fn only_comment_form_changed(a: App, b: App) -> bool {
    b == (App { show_comment_popup: b.show_comment_popup, comment_popup_state: b.comment_popup_state, ..a })
}

/// Only the editing popup's flag and form may differ between `a` and `b`.
#[verifier::opaque]
pub open spec fn only_edit_form_changed(a: App, b: App) -> bool {
    b == (App { show_edit_popup: b.show_edit_popup, edit_popup_state: b.edit_popup_state, ..a })
}

/// Only the git popup's flag and form may differ between `a` and `b`.
#[verifier::opaque]
pub open spec fn only_git_form_changed(a: App, b: App) -> bool {
    b == (App { show_git_popup: b.show_git_popup, git_popup_state: b.git_popup_state, ..a })
}

/// `a` and `b` agree on everything outside the popups: the board, the
/// list, the loaded stories and the other requests.
pub open spec fn same_board(a: App, b: App) -> bool {
    &&& b.show_detail == a.show_detail
    &&& b.take_ownership_requested == a.take_ownership_requested
    &&& b.workflow_state_map == a.workflow_state_map
    &&& b.member_cache == a.member_cache
    &&& b.current_user_id == a.current_user_id
    &&& b.detail_scroll_offset == a.detail_scroll_offset
    &&& b.should_quit == a.should_quit
    &&& b.selected_column == a.selected_column
    &&& b.selected_row == a.selected_row
    &&& b.stories_by_state == a.stories_by_state
    &&& b.workflow_states == a.workflow_states
    &&& b.workflows == a.workflows
    &&& b.list_view_mode == a.list_view_mode
    &&& b.all_stories_list == a.all_stories_list
    &&& b.list_selected_index == a.list_selected_index
    &&& b.list_scroll_offset == a.list_scroll_offset
    &&& b.search_query == a.search_query
    &&& b.next_page_token == a.next_page_token
    &&& b.load_more_requested == a.load_more_requested
    &&& b.is_loading == a.is_loading
    &&& b.total_loaded_stories == a.total_loaded_stories
    &&& b.git_context == a.git_context
    &&& b.refresh_requested == a.refresh_requested
    &&& b.epics == a.epics
    &&& b.selected_epic_filter == a.selected_epic_filter
    &&& b.show_epic_selector == a.show_epic_selector
    &&& b.epic_selector_index == a.epic_selector_index
    &&& b.all_stories_unfiltered == a.all_stories_unfiltered
    &&& b.clickable_urls == a.clickable_urls
    &&& b.detail_area == a.detail_area
    &&& b.exit_directory == a.exit_directory
}

/// `a` and `b` agree on the editing popup.
pub open spec fn same_edit(a: App, b: App) -> bool {
    &&& b.show_edit_popup == a.show_edit_popup
    &&& b.edit_popup_state == a.edit_popup_state
    &&& b.edit_story_requested == a.edit_story_requested
}

/// `a` and `b` agree on the story creation popup.
pub open spec fn same_create(a: App, b: App) -> bool {
    &&& b.show_create_popup == a.show_create_popup
    &&& b.create_popup_state == a.create_popup_state
    &&& b.create_story_requested == a.create_story_requested
}

/// `a` and `b` agree on the epic creation popup.
pub open spec fn same_epic(a: App, b: App) -> bool {
    &&& b.show_create_epic_popup == a.show_create_epic_popup
    &&& b.create_epic_popup_state == a.create_epic_popup_state
    &&& b.create_epic_requested == a.create_epic_requested
}

/// `a` and `b` agree on the git branch popup.
pub open spec fn same_git(a: App, b: App) -> bool {
    &&& b.show_git_popup == a.show_git_popup
    &&& b.git_popup_state == a.git_popup_state
    &&& b.git_branch_requested == a.git_branch_requested
}

/// `a` and `b` agree on the git result popup.
pub open spec fn same_git_result(a: App, b: App) -> bool {
    &&& b.show_git_result_popup == a.show_git_result_popup
    &&& b.git_result_state == a.git_result_state
}

/// `a` and `b` agree on the help popup.
pub open spec fn same_help(a: App, b: App) -> bool {
    &&& b.show_help_popup == a.show_help_popup
    &&& b.help_selected_index == a.help_selected_index
}

/// `a` and `b` agree on the state selector.
pub open spec fn same_selector(a: App, b: App) -> bool {
    &&& b.show_state_selector == a.show_state_selector
    &&& b.state_selector_index == a.state_selector_index
}

/// `a` and `b` agree on the comment popup.
pub open spec fn same_comment(a: App, b: App) -> bool {
    &&& b.show_comment_popup == a.show_comment_popup
    &&& b.comment_popup_state == a.comment_popup_state
    &&& b.add_comment_requested == a.add_comment_requested
}

/// Only the editing popup may differ between `a` and `b`.
#[verifier::opaque]
pub open spec fn only_edit(a: App, b: App) -> bool {
    &&& same_board(a, b)
    &&& same_create(a, b)
    &&& same_epic(a, b)
    &&& same_git(a, b)
    &&& same_git_result(a, b)
    &&& same_help(a, b)
    &&& same_selector(a, b)
    &&& same_comment(a, b)
}

/// Only the story creation popup may differ between `a` and `b`.
#[verifier::opaque]
pub open spec fn only_create(a: App, b: App) -> bool {
    &&& same_board(a, b)
    &&& same_edit(a, b)
    &&& same_epic(a, b)
    &&& same_git(a, b)
    &&& same_git_result(a, b)
    &&& same_help(a, b)
    &&& same_selector(a, b)
    &&& same_comment(a, b)
}


/// Only the epic creation popup may differ between `a` and `b`.
#[verifier::opaque]
pub open spec fn only_epic(a: App, b: App) -> bool {
    &&& same_board(a, b)
    &&& same_edit(a, b)
    &&& same_create(a, b)
    &&& same_git(a, b)
    &&& same_git_result(a, b)
    &&& same_help(a, b)
    &&& same_selector(a, b)
    &&& same_comment(a, b)
}

/// Only the git branch popup may differ between `a` and `b`.
#[verifier::opaque]
pub open spec fn only_git(a: App, b: App) -> bool {
    &&& same_board(a, b)
    &&& same_edit(a, b)
    &&& same_create(a, b)
    &&& same_epic(a, b)
    &&& same_git_result(a, b)
    &&& same_help(a, b)
    &&& same_selector(a, b)
    &&& same_comment(a, b)
}

/// Only the help popup may differ between `a` and `b`.
#[verifier::opaque]
pub open spec fn only_help(a: App, b: App) -> bool {
    &&& same_board(a, b)
    &&& same_edit(a, b)
    &&& same_create(a, b)
    &&& same_epic(a, b)
    &&& same_git(a, b)
    &&& same_git_result(a, b)
    &&& same_selector(a, b)
    &&& same_comment(a, b)
}

/// Only the state selector may differ between `a` and `b`.
#[verifier::opaque]
pub open spec fn only_selector(a: App, b: App) -> bool {
    &&& same_board(a, b)
    &&& same_edit(a, b)
    &&& same_create(a, b)
    &&& same_epic(a, b)
    &&& same_git(a, b)
    &&& same_git_result(a, b)
    &&& same_help(a, b)
    &&& same_comment(a, b)
}


/// The story creation popup shown, with whatever form `b` holds, and
/// nothing else changed.
#[verifier::opaque]
pub open spec fn create_form_opened(a: App, b: App) -> bool {
    b == (App { show_create_popup: true, create_popup_state: b.create_popup_state, ..a })
}

/// `o` asks to take the selected story, if any; `a` opens the story
/// creation popup with an empty form; `E` opens the epic creation popup on
/// its name field. Nothing else changes for `o` and `a`.
#[verifier::opaque]
pub open spec fn board_create_effect(a: App, b: App, k: KeyCode) -> bool {
    if is_char(k, 'o') {
        b == (if a.selected_story() is Some {
            App { take_ownership_requested: true, ..a }
        } else {
            a
        })
    } else if is_char(k, 'a') {
        create_form_opened(a, b) && b.create_popup_state.is_fresh()
    } else {
        b.show_create_epic_popup && b.create_epic_popup_state.selected_field == CreateEpicField::Name
    }
}

/// `e` opens the editing popup for the selected story; `n` asks for the
/// next page when there is one and nothing is loading; `v` switches between
/// the column and the list view, each at its start. Nothing else changes
/// for `n` and `v`.
#[verifier::opaque]
pub open spec fn board_story_effect(a: App, b: App, k: KeyCode) -> bool {
    if is_char(k, 'e') {
        edit_popup_opened(a, b)
    } else if is_char(k, 'n') {
        b == (if a.next_page_token is Some && !a.is_loading {
            App { load_more_requested: true, is_loading: true, ..a }
        } else {
            a
        })
    } else {
        b == (if a.list_view_mode {
            App { list_view_mode: false, selected_column: 0, selected_row: 0, ..a }
        } else {
            App { list_view_mode: true, list_selected_index: 0, list_scroll_offset: 0, ..a }
        })
    }
}

/// `r` drops the loaded stories and asks for the first page again, with the
/// selection back at the start; `f` opens (at "all stories") or closes the
/// epic selector; `?` opens the help popup on its first command. Nothing
/// else changes.
#[verifier::opaque]
pub open spec fn board_view_effect(a: App, b: App, k: KeyCode) -> bool {
    if is_char(k, 'r') {
        &&& b.stories_by_state@.len() == 0
        &&& b.all_stories_list@.len() == 0
        &&& b.all_stories_unfiltered@.len() == 0
        &&& b == (App {
            refresh_requested: true,
            is_loading: true,
            stories_by_state: b.stories_by_state,
            all_stories_list: b.all_stories_list,
            all_stories_unfiltered: b.all_stories_unfiltered,
            total_loaded_stories: 0,
            next_page_token: None,
            selected_column: 0,
            selected_row: 0,
            list_selected_index: 0,
            list_scroll_offset: 0,
            ..a
        })
    } else if is_char(k, 'f') {
        b == (if a.show_epic_selector {
            App { show_epic_selector: false, ..a }
        } else {
            App { show_epic_selector: true, epic_selector_index: 0, ..a }
        })
    } else {
        b == (App { show_help_popup: true, help_selected_index: 0, ..a })
    }
}

/// A key press: the open popup that comes first among help, comment, git
/// result, git branch, epic selector, epic creation, editing, story creation
/// and state selector takes it; with none open the board does.
pub open spec fn key_effect(a: App, b: App, key: KeyPress) -> bool {
    if a.show_help_popup {
        help_key_effect(a, b, key)
    } else if a.show_comment_popup {
        comment_key_effect(a, b, key)
    } else if a.show_git_result_popup {
        git_result_key_effect(a, b, key)
    } else if a.show_git_popup {
        git_popup_key_effect(a, b, key)
    } else if a.show_epic_selector {
        epic_selector_key_effect(a, b, key)
    } else if a.show_create_epic_popup {
        create_epic_key_effect(a, b, key)
    } else if a.show_edit_popup {
        edit_key_effect(a, b, key)
    } else if a.show_create_popup {
        create_key_effect(a, b, key)
    } else if a.show_state_selector {
        state_selector_key_effect(a, b, key)
    } else {
        board_key_effect(a, b, key)
    }
}

/// Whether a key is a given character (see `is_char`).
pub fn key_is_char(k: KeyCode, c: char) -> (r: bool)
    ensures
        r == is_char(k, c),
{
    match k {
        KeyCode::Char(d) => d == c,
        _ => false,
    }
}

/// Whether a key moves down (see `moves_down`).
pub fn key_moves_down(k: KeyCode) -> (r: bool)
    ensures
        r == moves_down(k),
{
    match k {
        KeyCode::Down => true,
        KeyCode::Char(c) => c == 'j',
        _ => false,
    }
}

/// Whether a key moves up (see `moves_up`).
pub fn key_moves_up(k: KeyCode) -> (r: bool)
    ensures
        r == moves_up(k),
{
    match k {
        KeyCode::Up => true,
        KeyCode::Char(c) => c == 'k',
        _ => false,
    }
}

/// Whether a key moves right (see `moves_right`).
pub fn key_moves_right(k: KeyCode) -> (r: bool)
    ensures
        r == moves_right(k),
{
    match k {
        KeyCode::Right => true,
        KeyCode::Char(c) => c == 'l',
        _ => false,
    }
}

/// Whether a key moves left (see `moves_left`).
pub fn key_moves_left(k: KeyCode) -> (r: bool)
    ensures
        r == moves_left(k),
{
    match k {
        KeyCode::Left => true,
        KeyCode::Char(c) => c == 'h',
        _ => false,
    }
}

/// Whether a key switches a choice (see `switches_choice`).
pub fn key_switches_choice(k: KeyCode) -> (r: bool)
    ensures
        r == switches_choice(k),
{
    match k {
        KeyCode::Up => true,
        KeyCode::Down => true,
        KeyCode::Char(c) => c == 'k' || c == 'j',
        _ => false,
    }
}

/// Whether a key is an arrow up or down (see `arrow_up_or_down`).
pub fn key_arrow_up_or_down(k: KeyCode) -> (r: bool)
    ensures
        r == arrow_up_or_down(k),
{
    match k {
        KeyCode::Up => true,
        KeyCode::Down => true,
        _ => false,
    }
}

/// Whether a key closes the help popup (see `closes_help`).
pub fn key_closes_help(k: KeyCode) -> (r: bool)
    ensures
        r == closes_help(k),
{
    match k {
        KeyCode::Esc => true,
        KeyCode::Char(c) => c == 'q' || c == '?',
        _ => false,
    }
}

/// Whether a key is Esc or Enter (see `esc_or_enter`).
pub fn key_esc_or_enter(k: KeyCode) -> (r: bool)
    ensures
        r == esc_or_enter(k),
{
    match k {
        KeyCode::Esc => true,
        KeyCode::Enter => true,
        _ => false,
    }
}

/// Whether a key starts editing the branch name (see `edits_branch`).
pub fn key_edits_branch(k: KeyCode) -> (r: bool)
    ensures
        r == edits_branch(k),
{
    match k {
        KeyCode::Tab => true,
        KeyCode::Char(c) => c == 'e',
        _ => false,
    }
}

/// On the board, `l` does what the right arrow does and `h` what the left
/// arrow does: in the column view with columns, `l` selects the next column
/// and `h` the previous one (wrapping), each at its first row.
pub proof fn lemma_letters_move_like_arrows(
    a: App,
    b: App,
    l: KeyPress,
    right: KeyPress,
    h: KeyPress,
    left: KeyPress,
)
    requires
        l.code == KeyCode::Char('l'),
        right.code == KeyCode::Right,
        h.code == KeyCode::Char('h'),
        left.code == KeyCode::Left,
    ensures
        board_key_effect(a, b, l) == board_key_effect(a, b, right),
        board_key_effect(a, b, h) == board_key_effect(a, b, left),
        board_key_effect(a, b, l) && !a.list_view_mode && a.workflow_states@.len() > 0 ==> b.selected_column
            == wrap_next(a.selected_column, a.workflow_states@.len() as int) && b.selected_row == 0,
        board_key_effect(a, b, h) && !a.list_view_mode && a.workflow_states@.len() > 0 ==> b.selected_column
            == wrap_prev(a.selected_column, a.workflow_states@.len() as int) && b.selected_row == 0,
{
    reveal(board_key_effect);
    reveal(board_detail_effect);
    reveal(board_column_effect);
}

} // verus!

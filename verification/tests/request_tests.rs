use sc_cli::api::{Epic, Story, Workflow, WorkflowState};
use sc_cli::cli::{more_to_show, show_window_end};
use sc_cli::git::operations::{GitBranchRequest, GitBranchResult, GitOperation};
use sc_cli::ui::app::App;
use sc_cli::ui::keys::{KeyCode, KeyPress};
use sc_cli::ui::popups::{GitBranchOption, GitBranchPopupState, GitOperationType, GitResultOption, GitResultState};
use sc_cli::ui::textarea::{textarea_with, TextEditor};
use tui_textarea::TextArea;

fn story(id: i64, state: i64, position: i64) -> Story {
    Story {
        id,
        name: format!("Story {}", id),
        description: String::new(),
        workflow_state_id: state,
        app_url: format!("https://app.shortcut.com/org/story/{}", id),
        story_type: "feature".to_string(),
        labels: vec![],
        owner_ids: vec![],
        position,
        created_at: "2024-01-01T00:00:00Z".to_string(),
        updated_at: "2024-01-02T00:00:00Z".to_string(),
        completed_at: None,
        moved_at: None,
        comments: vec![],
        formatted_vcs_branch_name: None,
        epic_id: None,
        branches: vec![],
        pull_requests: vec![],
        commits: vec![],
    }
}

fn workflows() -> Vec<Workflow> {
    let state = |id: i64, name: &str, position: i64| WorkflowState {
        id,
        name: name.to_string(),
        color: String::new(),
        position,
        state_type: "unstarted".to_string(),
    };
    vec![Workflow {
        id: 1,
        name: "Default".to_string(),
        states: vec![state(10, "To Do", 1), state(20, "In Progress", 2), state(30, "Review", 3)],
    }]
}

fn app() -> App {
    App::new(vec![story(1, 10, 300), story(2, 10, 100), story(3, 20, 200)], workflows(), "owner:me".to_string(), None)
}

fn editor(lines: &[&str]) -> TextEditor {
    let mut ta = TextArea::default();
    ta.insert_str(lines.join("\n"));
    TextEditor { inner: ta }
}

fn epic(id: i64, name: &str) -> Epic {
    Epic {
        id,
        name: name.to_string(),
        description: String::new(),
        app_url: String::new(),
        state: "to do".to_string(),
        owner_ids: vec![],
        created_at: String::new(),
        updated_at: String::new(),
    }
}

fn request(operation: GitOperation) -> GitBranchRequest {
    GitBranchRequest {
        branch_name: "sc-7-fix".to_string(),
        worktree_path: "../sc-7-fix".to_string(),
        operation,
        story_id: 7,
    }
}

#[test]
fn a_made_worktree_offers_to_exit_into_it() {
    let result = GitBranchResult::success("Created".to_string(), &request(GitOperation::CreateWorktree));
    let report = GitResultState::from_result(result);
    assert!(report.success);
    assert_eq!(report.operation_type, GitOperationType::CreateWorktree);
    assert_eq!(report.worktree_path, Some("../sc-7-fix".to_string()));
    assert_eq!(report.selected_option, GitResultOption::ExitAndChange);
    assert_eq!(report.story_id, 7);
    assert_eq!(report.message, "Created");
}

#[test]
fn a_made_branch_or_a_failure_offers_to_continue() {
    let branch = GitResultState::from_result(GitBranchResult::success(
        "Created".to_string(),
        &request(GitOperation::CreateBranch),
    ));
    assert_eq!(branch.operation_type, GitOperationType::CreateBranch);
    assert_eq!(branch.worktree_path, None);
    assert_eq!(branch.selected_option, GitResultOption::Continue);
    let failed = GitResultState::from_result(GitBranchResult::failure(
        "Failed".to_string(),
        &request(GitOperation::CreateWorktree),
    ));
    assert!(!failed.success);
    assert_eq!(failed.selected_option, GitResultOption::Continue);
    assert_eq!(failed.branch_name, "sc-7-fix");
}

#[test]
fn the_state_selector_names_story_and_target() {
    let mut app = app();
    assert!(app.is_well_formed());
    app.toggle_state_selector();
    assert!(app.show_state_selector);
    assert_eq!(app.state_change(), Some((2, 20)));
    app.next_state_selection();
    assert_eq!(app.state_change(), Some((2, 30)));
}

#[test]
fn a_blank_name_asks_for_no_story() {
    let mut app = app();
    app.create_popup_state.name_textarea = editor(&["   "]);
    assert_eq!(app.create_story_request(), None);
    app.create_popup_state.name_textarea = editor(&["New", "story"]);
    app.create_popup_state.description_textarea = editor(&["line one", "line two"]);
    app.create_popup_state.story_type = "bug".to_string();
    app.create_popup_state.epic_id = Some(5);
    assert_eq!(
        app.create_story_request(),
        Some(("Newstory".to_string(), "line oneline two".to_string(), "bug".to_string(), Some(5)))
    );
}

#[test]
fn an_edit_request_carries_the_story_id() {
    let mut app = app();
    app.edit_popup_state.story_id = 3;
    app.edit_popup_state.name_textarea = editor(&["Renamed"]);
    app.edit_popup_state.description_textarea = editor(&["d"]);
    app.edit_popup_state.story_type = "chore".to_string();
    assert_eq!(
        app.edit_story_request(),
        Some((3, "Renamed".to_string(), "d".to_string(), "chore".to_string(), None))
    );
    app.edit_popup_state.name_textarea = editor(&[""]);
    assert_eq!(app.edit_story_request(), None);
}

#[test]
fn a_comment_keeps_its_line_breaks() {
    let mut app = app();
    app.comment_popup_state.story_id = 1;
    app.comment_popup_state.comment_textarea = editor(&["first", "second"]);
    assert_eq!(app.comment_request(), Some((1, "first\nsecond".to_string())));
    app.comment_popup_state.comment_textarea = editor(&["  ", ""]);
    assert_eq!(app.comment_request(), None);
}

#[test]
fn an_epic_request_joins_its_description_by_lines() {
    let mut app = app();
    app.create_epic_popup_state.name_textarea = editor(&["Epic"]);
    app.create_epic_popup_state.description_textarea = editor(&["a", "b"]);
    assert_eq!(app.epic_request(), Some(("Epic".to_string(), "a\nb".to_string())));
    app.create_epic_popup_state.name_textarea = editor(&[" "]);
    assert_eq!(app.epic_request(), None);
}

#[test]
fn a_git_request_follows_the_chosen_option() {
    let mut app = app();
    app.git_popup_state = GitBranchPopupState::offering("sc-2-story", 2, true);
    let q = app.git_request().unwrap();
    assert_eq!(q.operation, GitOperation::CreateWorktree);
    assert_eq!(q.branch_name, "sc-2-story");
    assert_eq!(q.worktree_path, "../sc-2-story");
    assert_eq!(q.story_id, 2);
    app.git_popup_state.selected_option = GitBranchOption::CreateBranch;
    assert_eq!(app.git_request().unwrap().operation, GitOperation::CreateBranch);
    app.git_popup_state.selected_option = GitBranchOption::Cancel;
    assert!(app.git_request().is_none());
}

#[test]
fn a_created_story_joins_its_column_in_position_order() {
    let mut app = app();
    app.add_created_story(story(9, 10, 200), 10);
    assert_eq!(app.all_stories_unfiltered.len(), 4);
    let ids: Vec<i64> = app.stories_by_state.get(10).unwrap().iter().map(|s| s.id).collect();
    assert_eq!(ids, vec![2, 9, 1]);
    let listed: Vec<i64> = app.all_stories_list.iter().map(|s| s.id).collect();
    assert_eq!(listed, vec![2, 3, 9, 1]);
}

#[test]
fn a_created_story_outside_the_epic_filter_stays_hidden() {
    let mut app = app();
    app.selected_epic_filter = Some(4);
    app.add_created_story(story(9, 10, 200), 10);
    assert_eq!(app.all_stories_unfiltered.len(), 4);
    assert_eq!(app.stories_by_state.get(10).unwrap().len(), 2);
    assert_eq!(app.all_stories_list.len(), 3);
}

#[test]
fn reloading_keeps_members_user_and_epics() {
    let mut app = app();
    app.add_member_to_cache("u1".to_string(), "Ann (ann)".to_string());
    app.set_current_user_id("u1".to_string());
    app.set_epics(vec![epic(4, "Epic")]);
    app.handle_key_event(KeyPress::new(KeyCode::Char('v'))).unwrap();
    app.reload(vec![story(5, 30, 1)], Some("next".to_string()));
    assert_eq!(app.member_cache, vec![("u1".to_string(), "Ann (ann)".to_string())]);
    assert_eq!(app.current_user_id, Some("u1".to_string()));
    assert_eq!(app.epics.len(), 1);
    assert!(!app.list_view_mode);
    assert_eq!(app.all_stories_list.len(), 1);
    assert_eq!(app.next_page_token, Some("next".to_string()));
    assert_eq!(app.search_query, "owner:me");
}

#[test]
fn show_pages_stop_at_the_batch_end() {
    assert_eq!(show_window_end(0, 10, 3), 3);
    assert_eq!(show_window_end(5, 10, 30), 15);
    assert_eq!(show_window_end(25, 10, 30), 30);
    assert!(more_to_show(15, 30, false));
    assert!(more_to_show(30, 30, true));
    assert!(!more_to_show(30, 30, false));
}

#[test]
fn an_editor_made_from_text_reads_back() {
    let t = textarea_with("one\ntwo");
    assert_eq!(t.inner.lines().join("\n"), "one\ntwo");
}

#[test]
fn served_requests_clear_their_flags_and_forms() {
    let mut a = app();
    a.take_ownership_requested = true;
    a.ownership_request_done();
    assert!(!a.take_ownership_requested);

    a.create_story_requested = true;
    a.create_popup_state.name_textarea = editor(&["New"]);
    a.creation_request_done();
    assert!(!a.create_story_requested);
    assert_eq!(a.create_popup_state.name_textarea.inner.lines().join(""), "");

    a.edit_story_requested = true;
    a.edit_popup_state.story_id = 9;
    a.edit_request_done();
    assert!(!a.edit_story_requested);
    assert_eq!(a.edit_popup_state.story_id, 0);

    a.refresh_requested = true;
    a.is_loading = true;
    a.refresh_done();
    assert!(!a.refresh_requested && !a.is_loading);

    a.load_more_requested = true;
    a.is_loading = true;
    a.load_more_done();
    assert!(!a.load_more_requested && !a.is_loading);
}

#[test]
fn a_served_git_request_shows_what_ran() {
    let mut a = app();
    a.git_branch_requested = true;
    a.git_popup_state.story_id = 7;
    let result = GitBranchResult::success("Created".to_string(), &request(GitOperation::CreateWorktree));
    a.git_request_done(Some(result));
    assert!(!a.git_branch_requested);
    assert!(a.show_git_result_popup);
    assert_eq!(a.git_result_state.worktree_path, Some("../sc-7-fix".to_string()));
    assert_eq!(a.git_popup_state.story_id, 0);

    let mut b = app();
    b.git_branch_requested = true;
    b.git_request_done(None);
    assert!(!b.git_branch_requested);
    assert!(!b.show_git_result_popup);
}

#[test]
fn a_created_epic_joins_the_known_epics() {
    let mut a = app();
    let before = a.epics.len();
    a.add_created_epic(epic(42, "New epic"));
    assert_eq!(a.epics.len(), before + 1);
    assert_eq!(a.epics[before].id, 42);
}

use sc_cli::api::{Epic, Story, Workflow, WorkflowState};
use sc_cli::git::{GitContext, GitRepoType};
use sc_cli::ui::app::App;
use sc_cli::ui::keys::{KeyCode, KeyPress};
use sc_cli::ui::popups::{Area, ClickableUrl, CommentPopupState, CreateField, EditField, EditPopupState};
use sc_cli::ui::textarea::{textarea_with, TextEditor};
use tui_textarea::TextArea;

// ---------------------------------------------------------------------------
// Builders

fn base_story(id: i64, name: &str, state: i64, position: i64) -> Story {
    Story {
        id,
        name: name.to_string(),
        description: format!("{} description", name),
        workflow_state_id: state,
        app_url: format!("https://app.shortcut.com/org/story/{}", id),
        story_type: "feature".to_string(),
        labels: vec![],
        owner_ids: vec![],
        position,
        created_at: "2024-01-01T00:00:00Z".to_string(),
        updated_at: "2024-01-02T00:00:00Z".to_string(),
        completed_at: None,
        moved_at: None,
        comments: vec![],
        formatted_vcs_branch_name: None,
        epic_id: None,
        branches: vec![],
        pull_requests: vec![],
        commits: vec![],
    }
}

fn owned(mut s: Story, owner: &str, story_type: &str) -> Story {
    s.owner_ids = vec![owner.to_string()];
    s.story_type = story_type.to_string();
    s
}

fn state(id: i64, name: &str, color: &str, position: i64, state_type: &str) -> WorkflowState {
    WorkflowState {
        id,
        name: name.to_string(),
        color: color.to_string(),
        position,
        state_type: state_type.to_string(),
    }
}

fn workflow(id: i64, name: &str, states: Vec<WorkflowState>) -> Workflow {
    Workflow { id, name: name.to_string(), states }
}

fn text(t: &TextEditor) -> String {
    t.inner.lines().join("\n")
}

fn key(c: char) -> KeyPress {
    KeyPress::new(KeyCode::Char(c))
}

fn editor(s: &str) -> TextEditor {
    let mut ta = TextArea::default();
    ta.insert_str(s);
    TextEditor { inner: ta }
}

fn empty_editor() -> TextEditor {
    TextEditor { inner: TextArea::default() }
}

// Stories and workflows of the board tests (three states, no done state).
fn board_stories() -> Vec<Story> {
    vec![
        owned(base_story(1, "First Story", 10, 1000), "user1", "feature"),
        owned(base_story(2, "Second Story", 20, 2000), "user2", "bug"),
        owned(base_story(3, "Third Story", 30, 3000), "user3", "chore"),
    ]
}

fn board_workflows() -> Vec<Workflow> {
    vec![workflow(
        1,
        "Default Workflow",
        vec![
            state(10, "To Do", "#000000", 1, ""),
            state(20, "In Progress", "#f39c12", 2, ""),
            state(30, "Done", "#27ae60", 3, ""),
        ],
    )]
}

fn board_app(stories: Vec<Story>) -> App {
    App::new(stories, board_workflows(), String::new(), None)
}

// ---------------------------------------------------------------------------
// The board

#[test]
fn test_app_creation() {
    let stories = board_stories();
    let app = board_app(stories.clone());

    assert_eq!(app.selected_column, 0);
    assert_eq!(app.selected_row, 0);
    assert!(!app.show_detail);
    assert!(!app.should_quit);
    assert_eq!(app.workflow_state_map.len(), 3);
    assert_eq!(app.workflow_states.len(), 3);
    assert_eq!(app.stories_by_state.len(), 3);
}

#[test]
fn test_app_creation_empty_stories() {
    let app = board_app(vec![]);
    assert_eq!(app.workflow_states.len(), 3);
    assert_eq!(app.stories_by_state.len(), 0);
}

#[test]
fn test_navigation_next() {
    let mut app = board_app(board_stories());
    assert_eq!(app.workflow_states.len(), 3);
    assert_eq!(app.selected_column, 0);
    assert_eq!(app.selected_row, 0);

    app.next();
    assert_eq!(app.selected_row, 0);

    app.next_column();
    assert_eq!(app.selected_column, 1);
    assert_eq!(app.selected_row, 0);
}

#[test]
fn test_navigation_previous() {
    let mut app = board_app(board_stories());
    assert_eq!(app.selected_column, 0);
    assert_eq!(app.selected_row, 0);

    app.previous();
    assert_eq!(app.selected_row, 0);

    app.previous_column();
    assert_eq!(app.selected_column, 2);
    app.previous_column();
    assert_eq!(app.selected_column, 1);
    app.previous_column();
    assert_eq!(app.selected_column, 0);
}

#[test]
fn test_navigation_empty_stories() {
    let mut app = board_app(vec![]);

    app.next();
    assert_eq!(app.selected_column, 0);
    assert_eq!(app.selected_row, 0);

    app.previous();
    assert_eq!(app.selected_column, 0);
    assert_eq!(app.selected_row, 0);

    app.next_column();
    assert_eq!(app.selected_column, 1);
    app.next_column();
    assert_eq!(app.selected_column, 2);
    app.next_column();
    assert_eq!(app.selected_column, 0);
    app.previous_column();
    assert_eq!(app.selected_column, 2);
}

#[test]
fn test_toggle_detail() {
    let mut app = board_app(board_stories());
    assert!(!app.show_detail);
    app.toggle_detail();
    assert!(app.show_detail);
    app.toggle_detail();
    assert!(!app.show_detail);
}

#[test]
fn test_toggle_detail_empty_stories() {
    let mut app = board_app(vec![]);
    app.toggle_detail();
    assert!(!app.show_detail);
}

#[test]
fn test_set_current_user_id() {
    let mut app = board_app(board_stories());
    assert_eq!(app.current_user_id, None);
    app.set_current_user_id("user1".to_string());
    assert_eq!(app.current_user_id, Some("user1".to_string()));
    app.set_current_user_id("user2".to_string());
    assert_eq!(app.current_user_id, Some("user2".to_string()));
}

#[test]
fn test_stories_sorted_by_position() {
    let mut s3 = base_story(3, "Third Story", 10, 3000);
    let mut s1 = base_story(1, "First Story", 10, 1000);
    let mut s2 = base_story(2, "Second Story", 10, 2000);
    for s in [&mut s3, &mut s1, &mut s2] {
        s.description = String::new();
        s.app_url = String::new();
        s.story_type = String::new();
        s.created_at = String::new();
        s.updated_at = String::new();
    }
    let workflows = vec![workflow(1, "Default Workflow", vec![state(10, "To Do", "#000000", 1, "")])];
    let app = App::new(vec![s3, s1, s2], workflows, String::new(), None);

    let sorted_stories = app.stories_by_state.get(10).unwrap();
    assert_eq!(sorted_stories.len(), 3);
    assert_eq!(sorted_stories[0].id, 1);
    assert_eq!(sorted_stories[1].id, 2);
    assert_eq!(sorted_stories[2].id, 3);
}

#[test]
fn test_create_story_popup() {
    let mut app = board_app(board_stories());
    assert!(!app.show_create_popup);

    app.handle_key_event(key('a')).unwrap();
    assert!(app.show_create_popup);
    assert_eq!(app.create_popup_state.selected_field, CreateField::Name);

    app.handle_key_event(key('T')).unwrap();
    assert_eq!(text(&app.create_popup_state.name_textarea), "T");

    app.handle_key_event(KeyPress::new(KeyCode::Tab)).unwrap();
    assert_eq!(app.create_popup_state.selected_field, CreateField::Description);

    app.handle_key_event(KeyPress::new(KeyCode::Esc)).unwrap();
    assert!(!app.show_create_popup);
}

// ---------------------------------------------------------------------------
// The comment popup

fn comment_workflows() -> Vec<Workflow> {
    vec![workflow(
        1,
        "Test Workflow",
        vec![state(100, "To Do", "#cccccc", 1, "unstarted"), state(200, "In Progress", "#0000ff", 2, "started")],
    )]
}

fn comment_story(id: i64) -> Story {
    let mut s = base_story(id, &format!("Test Story {}", id), 100, 1000);
    s.description = "Test description".to_string();
    s.updated_at = "2024-01-01T00:00:00Z".to_string();
    s
}

fn comment_app(id: i64) -> App {
    App::new(vec![comment_story(id)], comment_workflows(), "owner:test".to_string(), None)
}

#[test]
fn test_comment_popup_initialization() {
    let app = comment_app(1);
    assert!(!app.show_comment_popup);
    assert_eq!(app.comment_popup_state.story_id, 0);
}

#[test]
fn test_open_comment_popup_from_detail_view() {
    let mut app = comment_app(42);
    app.show_detail = true;
    app.handle_key_event(key('c')).unwrap();
    assert!(app.show_comment_popup);
    assert_eq!(app.comment_popup_state.story_id, 42);
}

#[test]
fn test_comment_popup_cancel_with_esc() {
    let mut app = comment_app(42);
    app.show_detail = true;
    app.show_comment_popup = true;
    app.comment_popup_state = CommentPopupState { comment_textarea: editor("Test comment"), story_id: 42 };

    app.handle_key_event(KeyPress::new(KeyCode::Esc)).unwrap();
    assert!(!app.show_comment_popup);
    assert!(app.comment_popup_state.comment_textarea.inner.lines().join("").is_empty());
}

#[test]
fn test_comment_popup_submit_with_ctrl_enter() {
    let mut app = comment_app(42);
    app.show_comment_popup = true;
    app.comment_popup_state = CommentPopupState { comment_textarea: editor("This is a test comment"), story_id: 42 };

    app.handle_key_event(KeyPress::with_ctrl(KeyCode::Enter)).unwrap();
    assert!(!app.show_comment_popup);
    assert!(app.add_comment_requested);
}

#[test]
fn test_comment_popup_ignores_submit_when_empty() {
    let mut app = comment_app(42);
    app.show_comment_popup = true;
    app.comment_popup_state = CommentPopupState { comment_textarea: empty_editor(), story_id: 42 };

    app.handle_key_event(KeyPress::with_ctrl(KeyCode::Enter)).unwrap();
    assert!(app.show_comment_popup);
    assert!(!app.add_comment_requested);
}

#[test]
fn test_comment_popup_text_input() {
    let mut app = comment_app(42);
    app.show_comment_popup = true;
    app.comment_popup_state = CommentPopupState { comment_textarea: empty_editor(), story_id: 42 };

    for c in ['H', 'e', 'l', 'l', 'o'] {
        app.handle_key_event(key(c)).unwrap();
    }
    let t = app.comment_popup_state.comment_textarea.inner.lines().join("");
    assert_eq!(t, "Hello");
}

#[test]
fn test_comment_popup_not_accessible_without_detail_view() {
    let mut app = comment_app(42);
    app.show_detail = false;
    app.handle_key_event(key('c')).unwrap();
    assert!(!app.show_comment_popup);
}

#[test]
fn test_comment_popup_multiline_input() {
    let mut app = comment_app(42);
    app.show_comment_popup = true;
    app.comment_popup_state = CommentPopupState { comment_textarea: empty_editor(), story_id: 42 };

    app.comment_popup_state.comment_textarea.inner.insert_str("First line");
    app.handle_key_event(KeyPress::new(KeyCode::Enter)).unwrap();
    app.comment_popup_state.comment_textarea.inner.insert_str("Second line");

    let lines = app.comment_popup_state.comment_textarea.inner.lines();
    assert_eq!(lines.len(), 2);
    assert_eq!(lines[0], "First line");
    assert_eq!(lines[1], "Second line");
}

// ---------------------------------------------------------------------------
// The edit popup

fn edit_story() -> Story {
    let mut s = base_story(123, "Test Story", 1, 1000);
    s.description = "Original description".to_string();
    s.app_url = "https://app.shortcut.com/test/story/123".to_string();
    s.updated_at = "2024-01-01T00:00:00Z".to_string();
    s
}

fn edit_app() -> App {
    let workflows = vec![workflow(1, "Test Workflow", vec![state(1, "To Do", "#ffffff", 1, "unstarted")])];
    App::new(vec![edit_story()], workflows, "test query".to_string(), None)
}

#[test]
fn test_edit_popup_state_from_story() {
    let story = edit_story();
    let edit_state = EditPopupState::from_story(&story);

    assert_eq!(text(&edit_state.name_textarea), "Test Story");
    assert_eq!(text(&edit_state.description_textarea), "Original description");
    assert_eq!(edit_state.story_type, "feature");
    assert_eq!(edit_state.story_type_index, 0);
    assert_eq!(edit_state.story_id, 123);
    assert_eq!(edit_state.selected_field, EditField::Name);
}

#[test]
fn test_edit_popup_state_story_type_index() {
    let mut story = edit_story();

    story.story_type = "bug".to_string();
    assert_eq!(EditPopupState::from_story(&story).story_type_index, 1);

    story.story_type = "chore".to_string();
    assert_eq!(EditPopupState::from_story(&story).story_type_index, 2);

    story.story_type = "unknown".to_string();
    assert_eq!(EditPopupState::from_story(&story).story_type_index, 0);
}

#[test]
fn test_edit_story_trigger() {
    let mut app = edit_app();
    assert!(!app.show_edit_popup);
    assert!(!app.edit_story_requested);

    app.handle_key_event(key('e')).unwrap();

    assert!(app.show_edit_popup);
    assert_eq!(app.edit_popup_state.story_id, 123);
    assert_eq!(text(&app.edit_popup_state.name_textarea), "Test Story");
    assert_eq!(text(&app.edit_popup_state.description_textarea), "Original description");
    assert_eq!(app.edit_popup_state.story_type, "feature");
}

#[test]
fn test_edit_popup_story_type_navigation() {
    let mut app = edit_app();
    app.show_edit_popup = true;
    app.edit_popup_state = EditPopupState::from_story(&edit_story());
    app.edit_popup_state.selected_field = EditField::Type;

    assert_eq!(app.edit_popup_state.story_type, "feature");
    assert_eq!(app.edit_popup_state.story_type_index, 0);

    let down = KeyPress::new(KeyCode::Down);
    app.handle_key_event(down).unwrap();
    assert_eq!(app.edit_popup_state.story_type, "bug");
    assert_eq!(app.edit_popup_state.story_type_index, 1);

    app.handle_key_event(down).unwrap();
    assert_eq!(app.edit_popup_state.story_type, "chore");
    assert_eq!(app.edit_popup_state.story_type_index, 2);

    app.handle_key_event(down).unwrap();
    assert_eq!(app.edit_popup_state.story_type, "feature");
    assert_eq!(app.edit_popup_state.story_type_index, 0);
}

#[test]
fn test_edit_popup_text_input() {
    let mut app = edit_app();
    app.show_edit_popup = true;
    app.edit_popup_state = EditPopupState::from_story(&edit_story());
    app.edit_popup_state.name_textarea = empty_editor();

    for c in ['H', 'e', 'l', 'l', 'o'] {
        app.handle_key_event(key(c)).unwrap();
    }
    assert_eq!(text(&app.edit_popup_state.name_textarea), "Hello");

    app.handle_key_event(KeyPress::new(KeyCode::Backspace)).unwrap();
    assert_eq!(text(&app.edit_popup_state.name_textarea), "Hell");
}

#[test]
fn test_edit_popup_cancel() {
    let mut app = edit_app();
    app.show_edit_popup = true;
    app.edit_popup_state = EditPopupState::from_story(&edit_story());
    app.edit_popup_state.name_textarea = editor("Modified");

    app.handle_key_event(KeyPress::new(KeyCode::Esc)).unwrap();

    assert!(!app.show_edit_popup);
    assert!(!app.edit_story_requested);
    assert_eq!(text(&app.edit_popup_state.name_textarea), "");
    assert_eq!(app.edit_popup_state.story_id, 0);
}

#[test]
fn test_edit_popup_navigation() {
    let mut app = edit_app();
    app.show_edit_popup = true;
    app.edit_popup_state = EditPopupState::from_story(&edit_story());
    assert_eq!(app.edit_popup_state.selected_field, EditField::Name);

    let tab = KeyPress::new(KeyCode::Tab);
    app.handle_key_event(tab).unwrap();
    assert_eq!(app.edit_popup_state.selected_field, EditField::Description);
    app.handle_key_event(tab).unwrap();
    assert_eq!(app.edit_popup_state.selected_field, EditField::Type);
    app.handle_key_event(tab).unwrap();
    assert_eq!(app.edit_popup_state.selected_field, EditField::Name);
}

#[test]
fn test_edit_popup_submit() {
    let mut app = edit_app();
    app.show_edit_popup = true;
    app.edit_popup_state = EditPopupState::from_story(&edit_story());
    app.edit_popup_state.selected_field = EditField::Type;
    app.edit_popup_state.name_textarea = editor("Updated Story");

    app.handle_key_event(KeyPress::new(KeyCode::Enter)).unwrap();

    assert!(app.edit_story_requested);
    assert!(!app.show_edit_popup);
}

#[test]
fn edit_popup_right_and_left_on_type_change_nothing() {
    let mut app = edit_app();
    app.show_edit_popup = true;
    app.edit_popup_state = EditPopupState::from_story(&edit_story());
    app.edit_popup_state.selected_field = EditField::Type;

    app.handle_key_event(KeyPress::new(KeyCode::Right)).unwrap();
    assert_eq!(app.edit_popup_state.selected_field, EditField::Type);
    app.handle_key_event(KeyPress::new(KeyCode::Left)).unwrap();
    assert_eq!(app.edit_popup_state.selected_field, EditField::Type);
    app.handle_key_event(key('x')).unwrap();
    assert_eq!(app.edit_popup_state.story_type, "feature");
    assert_eq!(text(&app.edit_popup_state.name_textarea), "Test Story");
    assert!(app.show_edit_popup);
}

#[test]
fn edit_popup_description_takes_typed_keys_and_name_keeps_its_text() {
    let mut app = edit_app();
    app.show_edit_popup = true;
    app.edit_popup_state = EditPopupState::from_story(&edit_story());
    app.edit_popup_state.selected_field = EditField::Description;
    app.edit_popup_state.description_textarea = empty_editor();

    app.handle_key_event(key('o')).unwrap();
    app.handle_key_event(key('k')).unwrap();
    assert_eq!(text(&app.edit_popup_state.description_textarea), "ok");
    assert_eq!(text(&app.edit_popup_state.name_textarea), "Test Story");
}

#[test]
fn create_popup_fields_take_typed_keys() {
    let mut app = edit_app();
    app.handle_key_event(key('a')).unwrap();
    app.handle_key_event(key('N')).unwrap();
    app.handle_key_event(KeyPress::new(KeyCode::Tab)).unwrap();
    app.handle_key_event(key('d')).unwrap();
    assert_eq!(text(&app.create_popup_state.name_textarea), "N");
    assert_eq!(text(&app.create_popup_state.description_textarea), "d");
}

#[test]
fn edit_popup_enter_on_name_moves_on_without_saving() {
    let mut app = edit_app();
    app.show_edit_popup = true;
    app.edit_popup_state = EditPopupState::from_story(&edit_story());

    app.handle_key_event(KeyPress::new(KeyCode::Enter)).unwrap();
    assert_eq!(app.edit_popup_state.selected_field, EditField::Description);
    assert!(app.show_edit_popup);
    assert!(!app.edit_story_requested);
}

#[test]
fn create_popup_enter_on_type_submits() {
    let mut app = edit_app();
    app.handle_key_event(key('a')).unwrap();
    for c in ['N', 'e', 'w'] {
        app.handle_key_event(key(c)).unwrap();
    }
    let tab = KeyPress::new(KeyCode::Tab);
    app.handle_key_event(tab).unwrap();
    app.handle_key_event(tab).unwrap();
    assert_eq!(app.create_popup_state.selected_field, CreateField::Type);

    app.handle_key_event(KeyPress::new(KeyCode::Enter)).unwrap();

    assert!(app.create_story_requested);
    assert!(!app.show_create_popup);
}

#[test]
fn create_popup_enter_on_type_with_a_blank_name_stays_open() {
    let mut app = edit_app();
    app.handle_key_event(key('a')).unwrap();
    app.create_popup_state.selected_field = CreateField::Type;

    app.handle_key_event(KeyPress::new(KeyCode::Enter)).unwrap();

    assert!(!app.create_story_requested);
    assert!(app.show_create_popup);
}

// ---------------------------------------------------------------------------
// The list view

fn list_workflows() -> Vec<Workflow> {
    vec![workflow(
        1,
        "Default Workflow",
        vec![
            state(10, "To Do", "#000000", 1, "unstarted"),
            state(20, "In Progress", "#f39c12", 2, "started"),
            state(30, "Done", "#27ae60", 3, "done"),
        ],
    )]
}

fn list_stories() -> Vec<Story> {
    vec![
        owned(base_story(1, "First Story", 10, 1000), "user1", "feature"),
        owned(base_story(2, "Second Story", 20, 2000), "user2", "bug"),
        owned(base_story(3, "Third Story", 20, 500), "user3", "chore"),
    ]
}

fn list_stories_up_to(end: i64) -> Vec<Story> {
    let mut stories = list_stories();
    for i in 4..end {
        stories.push(owned(base_story(i, &format!("Story {}", i), 10, i * 1000), &format!("user{}", i), "feature"));
    }
    stories
}

fn list_app(stories: Vec<Story>) -> App {
    App::new(stories, list_workflows(), "test query".to_string(), None)
}

#[test]
fn test_app_creation_with_list_view_fields() {
    let app = list_app(list_stories());
    assert!(!app.list_view_mode);
    assert_eq!(app.list_selected_index, 0);
    assert_eq!(app.all_stories_list.len(), 3);
    assert_eq!(app.all_stories_list[0].id, 3);
    assert_eq!(app.all_stories_list[1].id, 1);
    assert_eq!(app.all_stories_list[2].id, 2);
}

#[test]
fn test_toggle_view_mode() {
    let mut app = list_app(list_stories());
    assert!(!app.list_view_mode);
    assert_eq!(app.selected_column, 0);
    assert_eq!(app.selected_row, 0);

    app.toggle_view_mode();
    assert!(app.list_view_mode);
    assert_eq!(app.list_selected_index, 0);

    app.toggle_view_mode();
    assert!(!app.list_view_mode);
    assert_eq!(app.selected_column, 0);
    assert_eq!(app.selected_row, 0);
}

#[test]
fn test_navigation_in_list_view() {
    let mut app = list_app(list_stories());
    app.toggle_view_mode();
    assert!(app.list_view_mode);
    assert_eq!(app.list_selected_index, 0);

    app.next();
    assert_eq!(app.list_selected_index, 1);
    app.next();
    assert_eq!(app.list_selected_index, 2);
    app.next();
    assert_eq!(app.list_selected_index, 0);

    app.previous();
    assert_eq!(app.list_selected_index, 2);
    app.previous();
    assert_eq!(app.list_selected_index, 1);
    app.previous();
    assert_eq!(app.list_selected_index, 0);
}

#[test]
fn test_get_selected_story_in_list_view() {
    let mut app = list_app(list_stories());
    app.toggle_view_mode();

    let selected = app.get_selected_story().unwrap();
    assert_eq!(selected.id, 3);
    assert_eq!(selected.position, 500);

    app.next();
    let selected = app.get_selected_story().unwrap();
    assert_eq!(selected.id, 1);
    assert_eq!(selected.position, 1000);

    app.next();
    let selected = app.get_selected_story().unwrap();
    assert_eq!(selected.id, 2);
    assert_eq!(selected.position, 2000);
}

#[test]
fn test_get_selected_story_in_column_view() {
    let app = list_app(list_stories());
    assert!(!app.list_view_mode);
    let selected = app.get_selected_story().unwrap();
    assert!(selected.id == 1 || selected.id == 2 || selected.id == 3);
}

#[test]
fn test_navigation_in_column_view_vs_list_view() {
    let mut app = list_app(list_stories());
    assert!(!app.list_view_mode);

    app.next();

    app.toggle_view_mode();
    assert!(app.list_view_mode);
    assert_eq!(app.list_selected_index, 0);

    app.next();
    assert_eq!(app.list_selected_index, 1);

    app.toggle_view_mode();
    assert!(!app.list_view_mode);
    assert_eq!(app.selected_column, 0);
    assert_eq!(app.selected_row, 0);
}

#[test]
fn test_empty_stories_list_view() {
    let mut app = list_app(vec![]);
    app.toggle_view_mode();
    assert!(app.list_view_mode);
    assert_eq!(app.all_stories_list.len(), 0);
    assert_eq!(app.list_selected_index, 0);

    app.next();
    assert_eq!(app.list_selected_index, 0);
    app.previous();
    assert_eq!(app.list_selected_index, 0);

    assert!(app.get_selected_story().is_none());
}

#[test]
fn test_merge_stories_updates_list_view() {
    let mut app = list_app(list_stories());
    app.toggle_view_mode();
    assert_eq!(app.all_stories_list.len(), 3);

    let new_stories = vec![owned(base_story(4, "Fourth Story", 10, 100), "user4", "feature")];
    app.merge_stories(new_stories, None);

    assert_eq!(app.all_stories_list.len(), 4);
    assert_eq!(app.all_stories_list[0].id, 4);
    assert_eq!(app.all_stories_list[1].id, 3);
    assert_eq!(app.all_stories_list[2].id, 1);
    assert_eq!(app.all_stories_list[3].id, 2);
}

#[test]
fn test_keyboard_event_view_toggle() {
    let mut app = list_app(list_stories());
    assert!(!app.list_view_mode);
    app.handle_key_event(key('v')).unwrap();
    assert!(app.list_view_mode);
    app.handle_key_event(key('v')).unwrap();
    assert!(!app.list_view_mode);
}

#[test]
fn test_list_view_scroll_initialization() {
    let mut app = list_app(list_stories());
    app.toggle_view_mode();
    assert_eq!(app.list_scroll_offset, 0);
    assert_eq!(app.list_selected_index, 0);
}

#[test]
fn test_update_list_scroll_with_small_list() {
    let mut app = list_app(list_stories());
    app.toggle_view_mode();

    app.update_list_scroll(20);
    assert_eq!(app.list_scroll_offset, 0);

    app.list_selected_index = 2;
    app.update_list_scroll(20);
    assert_eq!(app.list_scroll_offset, 0);
}

#[test]
fn test_update_list_scroll_with_large_list() {
    let mut app = list_app(list_stories_up_to(20));
    app.toggle_view_mode();

    app.update_list_scroll(6);
    assert_eq!(app.list_scroll_offset, 0);

    app.list_selected_index = 4;
    app.update_list_scroll(6);
    assert_eq!(app.list_scroll_offset, 2);

    app.list_selected_index = 10;
    app.update_list_scroll(6);
    assert_eq!(app.list_scroll_offset, 8);

    app.list_selected_index = 0;
    app.update_list_scroll(6);
    assert_eq!(app.list_scroll_offset, 0);
}

#[test]
fn test_scroll_bounds() {
    let mut app = list_app(list_stories_up_to(10));
    app.toggle_view_mode();

    app.list_selected_index = 8;
    app.update_list_scroll(4);
    assert_eq!(app.list_scroll_offset, 7);

    app.list_scroll_offset = 100;
    app.update_list_scroll(4);
    assert_eq!(app.list_scroll_offset, 7);
}

#[test]
fn test_scroll_offset_reset_on_view_toggle() {
    let mut app = list_app(list_stories_up_to(10));
    app.toggle_view_mode();
    app.list_selected_index = 5;
    app.update_list_scroll(4);
    assert!(app.list_scroll_offset > 0);

    app.toggle_view_mode();
    assert!(!app.list_view_mode);

    app.toggle_view_mode();
    assert!(app.list_view_mode);
    assert_eq!(app.list_scroll_offset, 0);
    assert_eq!(app.list_selected_index, 0);
}

#[test]
fn test_navigation_with_scrolling() {
    let mut app = list_app(list_stories_up_to(8));
    app.toggle_view_mode();

    assert_eq!(app.list_selected_index, 0);
    app.next();
    assert_eq!(app.list_selected_index, 1);
    app.next();
    assert_eq!(app.list_selected_index, 2);

    for _ in 0..4 {
        app.next();
    }
    assert_eq!(app.list_selected_index, 6);

    app.next();
    assert_eq!(app.list_selected_index, 0);

    app.previous();
    assert_eq!(app.list_selected_index, 6);
    app.previous();
    assert_eq!(app.list_selected_index, 5);
}

// ---------------------------------------------------------------------------
// Paging

fn paging_stories() -> Vec<Story> {
    let mut a = base_story(1, "Test Story 1", 100, 1);
    a.description = "Test Description 1".to_string();
    a.app_url = "https://example.com/1".to_string();
    a.updated_at = "2024-01-01T00:00:00Z".to_string();
    let mut b = base_story(2, "Test Story 2", 200, 1);
    b.description = "Test Description 2".to_string();
    b.app_url = "https://example.com/2".to_string();
    b.story_type = "bug".to_string();
    b.updated_at = "2024-01-01T00:00:00Z".to_string();
    vec![a, b]
}

fn paging_workflows() -> Vec<Workflow> {
    vec![workflow(
        1,
        "Test Workflow",
        vec![
            state(100, "To Do", "#cccccc", 1, "unstarted"),
            state(200, "In Progress", "#0000ff", 2, "started"),
            state(300, "Done", "#00ff00", 3, "done"),
        ],
    )]
}

#[test]
fn test_app_pagination_state() {
    let search_query = "owner:test".to_string();
    let next_page_token = Some("next_token_123".to_string());
    let app = App::new(paging_stories(), paging_workflows(), search_query.clone(), next_page_token.clone());

    assert_eq!(app.search_query, search_query);
    assert_eq!(app.next_page_token, next_page_token);
    assert_eq!(app.total_loaded_stories, 2);
    assert!(!app.is_loading);
    assert!(!app.load_more_requested);
    assert!(app.has_more_stories());
}

#[test]
fn test_app_no_more_stories() {
    let app = App::new(paging_stories(), paging_workflows(), "owner:test".to_string(), None);
    assert!(!app.has_more_stories());
}

#[test]
fn test_request_load_more() {
    let mut app = App::new(
        paging_stories(),
        paging_workflows(),
        "owner:test".to_string(),
        Some("next_token_123".to_string()),
    );
    app.request_load_more();
    assert!(app.load_more_requested);
    assert!(app.is_loading);
}

#[test]
fn test_request_load_more_no_token() {
    let mut app = App::new(paging_stories(), paging_workflows(), "owner:test".to_string(), None);
    app.request_load_more();
    assert!(!app.load_more_requested);
    assert!(!app.is_loading);
}

#[test]
fn test_request_load_more_already_loading() {
    let mut app = App::new(
        paging_stories(),
        paging_workflows(),
        "owner:test".to_string(),
        Some("next_token_123".to_string()),
    );
    app.is_loading = true;
    app.request_load_more();
    assert!(!app.load_more_requested);
    assert!(app.is_loading);
}

#[test]
fn test_merge_stories() {
    let initial_stories = vec![paging_stories()[0].clone()];
    let mut app =
        App::new(initial_stories, paging_workflows(), "owner:test".to_string(), Some("initial_token".to_string()));
    app.load_more_requested = true;
    app.is_loading = true;

    let new_stories = vec![paging_stories()[1].clone()];
    let new_token = Some("new_token".to_string());
    app.merge_stories(new_stories, new_token.clone());

    assert_eq!(app.total_loaded_stories, 2);
    assert_eq!(app.next_page_token, new_token);
    assert!(!app.is_loading);
    assert!(!app.load_more_requested);
    assert_eq!(app.stories_by_state.get(100).unwrap().len(), 1);
    assert_eq!(app.stories_by_state.get(200).unwrap().len(), 1);
}

#[test]
fn test_merge_stories_same_state() {
    let initial_stories = vec![paging_stories()[0].clone()];
    let mut app = App::new(initial_stories, paging_workflows(), "owner:test".to_string(), None);

    let mut new_story = paging_stories()[0].clone();
    new_story.id = 3;
    new_story.name = "Test Story 3".to_string();
    new_story.position = 2;
    app.merge_stories(vec![new_story], None);

    let state_100_stories = app.stories_by_state.get(100).unwrap();
    assert_eq!(state_100_stories.len(), 2);
    assert_eq!(state_100_stories[0].position, 1);
    assert_eq!(state_100_stories[1].position, 2);
    assert_eq!(app.total_loaded_stories, 2);
}

#[test]
fn test_merge_stories_with_duplicates() {
    let mut app = App::new(paging_stories(), paging_workflows(), "owner:test".to_string(), None);
    let duplicate_stories = vec![paging_stories()[0].clone(), paging_stories()[1].clone()];
    app.merge_stories(duplicate_stories, None);

    assert_eq!(app.total_loaded_stories, 2);
    assert_eq!(app.stories_by_state.get(100).unwrap().len(), 1);
    assert_eq!(app.stories_by_state.get(200).unwrap().len(), 1);
}

#[test]
fn test_merge_stories_mixed_duplicates_and_new() {
    let initial_stories = vec![paging_stories()[0].clone()];
    let mut app = App::new(initial_stories, paging_workflows(), "owner:test".to_string(), None);

    let mut new_story = paging_stories()[0].clone();
    new_story.id = 3;
    new_story.name = "New Unique Story".to_string();
    let mixed_stories = vec![paging_stories()[0].clone(), new_story];
    app.merge_stories(mixed_stories, None);

    assert_eq!(app.total_loaded_stories, 2);
    assert_eq!(app.stories_by_state.get(100).unwrap().len(), 2);
}

#[test]
fn merging_the_same_page_twice_changes_nothing_more() {
    let mut app = App::new(paging_stories(), paging_workflows(), "q".to_string(), None);
    let page = vec![base_story(7, "Seven", 100, 5), base_story(8, "Eight", 200, 6)];
    app.merge_stories(page.clone(), None);
    let ids_once: Vec<i64> = app.all_stories_list.iter().map(|s| s.id).collect();
    app.merge_stories(page, None);
    let ids_twice: Vec<i64> = app.all_stories_list.iter().map(|s| s.id).collect();
    assert_eq!(ids_once, ids_twice);
    assert_eq!(app.total_loaded_stories, 4);
}

#[test]
fn done_stories_outside_this_week_leave_the_board() {
    let mut old_done = base_story(9, "Old", 300, 1);
    old_done.completed_at = Some("2020-01-01T00:00:00Z".to_string());
    let app = App::new(vec![old_done, paging_stories()[0].clone()], paging_workflows(), "q".to_string(), None);
    assert_eq!(app.total_loaded_stories, 1);
    assert!(app.stories_by_state.get(300).is_none());
}

// ---------------------------------------------------------------------------
// The state selector

fn selector_story(id: i64, state_id: i64) -> Story {
    let mut s = owned(base_story(id, &format!("Story {}", id), state_id, id * 1000), "user1", "feature");
    s.description = "Test description".to_string();
    s
}

fn selector_app(stories: Vec<Story>) -> App {
    App::new(stories, board_workflows(), "test query".to_string(), None)
}

#[test]
fn test_toggle_state_selector() {
    let mut app = selector_app(vec![selector_story(1, 10)]);
    assert!(!app.show_state_selector);
    app.toggle_state_selector();
    assert!(app.show_state_selector);
    assert_eq!(app.state_selector_index, 0);
}

#[test]
fn test_toggle_state_selector_empty_column() {
    let mut app = selector_app(vec![]);
    app.toggle_state_selector();
    assert!(!app.show_state_selector);
}

#[test]
fn test_get_available_states_for_story() {
    let app = selector_app(vec![selector_story(1, 10)]);
    let story = app.get_selected_story().unwrap();
    let available_states = app.get_available_states_for_story(story);
    assert_eq!(available_states.len(), 2);
    assert_eq!(available_states[0], (20, "In Progress".to_string()));
    assert_eq!(available_states[1], (30, "Done".to_string()));
}

#[test]
fn test_state_selector_navigation() {
    let mut app = selector_app(vec![selector_story(1, 10)]);
    app.toggle_state_selector();
    assert_eq!(app.state_selector_index, 0);
    app.next_state_selection();
    assert_eq!(app.state_selector_index, 1);
    app.next_state_selection();
    assert_eq!(app.state_selector_index, 0);
    app.previous_state_selection();
    assert_eq!(app.state_selector_index, 1);
    app.previous_state_selection();
    assert_eq!(app.state_selector_index, 0);
}

#[test]
fn test_get_selected_target_state() {
    let mut app = selector_app(vec![selector_story(1, 10)]);
    app.toggle_state_selector();
    assert_eq!(app.get_selected_target_state(), Some(20));
    app.next_state_selection();
    assert_eq!(app.get_selected_target_state(), Some(30));
}

#[test]
fn moving_a_story_updates_its_column() {
    let mut app = selector_app(vec![selector_story(1, 10), selector_story(2, 10)]);
    let mut moved = selector_story(1, 20);
    moved.name = "Moved".to_string();
    app.update_story_state(1, moved);
    assert_eq!(app.stories_by_state.get(10).unwrap().len(), 1);
    assert_eq!(app.stories_by_state.get(20).unwrap()[0].name, "Moved");
    assert_eq!(app.all_stories_unfiltered.iter().find(|s| s.id == 1).unwrap().workflow_state_id, 20);
}

#[test]
fn taking_ownership_replaces_the_story() {
    let mut app = selector_app(vec![selector_story(1, 10)]);
    let mut mine = selector_story(1, 10);
    mine.owner_ids = vec!["me".to_string()];
    app.update_story_ownership(1, mine);
    assert_eq!(app.stories_by_state.get(10).unwrap()[0].owner_ids, vec!["me".to_string()]);
    assert_eq!(app.all_stories_list[0].owner_ids, vec!["me".to_string()]);
}

// ---------------------------------------------------------------------------
// Other keys and laws on concrete values

#[test]
fn next_then_previous_returns_to_the_row() {
    let mut app = selector_app(vec![selector_story(1, 10), selector_story(2, 10), selector_story(3, 10)]);
    app.next();
    app.next();
    assert_eq!(app.selected_row, 2);
    app.next();
    assert_eq!(app.selected_row, 0);
    app.previous();
    assert_eq!(app.selected_row, 2);
    app.next();
    assert_eq!(app.selected_row, 0);
}

#[test]
fn quit_and_help_keys() {
    let mut app = board_app(board_stories());
    app.handle_key_event(key('?')).unwrap();
    assert!(app.show_help_popup);
    assert_eq!(app.help_selected_index, 0);
    app.handle_key_event(KeyPress::new(KeyCode::Esc)).unwrap();
    assert!(!app.show_help_popup);
    app.handle_key_event(key('q')).unwrap();
    assert!(app.should_quit);
}

#[test]
fn ownership_key_needs_a_story() {
    let mut app = board_app(vec![]);
    app.handle_key_event(key('o')).unwrap();
    assert!(!app.take_ownership_requested);
    let mut app = board_app(board_stories());
    app.handle_key_event(key('o')).unwrap();
    assert!(app.take_ownership_requested);
}

#[test]
fn detail_scrolling_stops_at_top() {
    let mut app = board_app(board_stories());
    app.handle_key_event(KeyPress::new(KeyCode::Enter)).unwrap();
    assert!(app.show_detail);
    app.handle_key_event(key('j')).unwrap();
    app.handle_key_event(key('j')).unwrap();
    assert_eq!(app.detail_scroll_offset, 2);
    app.handle_key_event(key('k')).unwrap();
    app.handle_key_event(key('k')).unwrap();
    app.handle_key_event(key('k')).unwrap();
    assert_eq!(app.detail_scroll_offset, 0);
    app.handle_key_event(KeyPress::new(KeyCode::Esc)).unwrap();
    assert!(!app.show_detail);
}

#[test]
fn git_key_needs_a_repository() {
    let mut app = board_app(board_stories());
    app.handle_key_event(key('g')).unwrap();
    assert!(!app.show_git_popup);
    app.git_context = GitContext { repo_type: GitRepoType::Normal, current_branch: Some("main".to_string()) };
    app.handle_key_event(key('g')).unwrap();
    assert!(app.show_git_popup);
    assert_eq!(app.git_popup_state.story_id, 1);
    assert_eq!(text(&app.git_popup_state.branch_name_textarea), "sc-1-first-story");
}

#[test]
fn epic_filter_keeps_only_the_epics_stories() {
    let mut a = selector_story(1, 10);
    a.epic_id = Some(77);
    let b = selector_story(2, 20);
    let mut app = selector_app(vec![a, b]);
    app.set_epics(vec![Epic {
        id: 77,
        name: "Epic".to_string(),
        description: String::new(),
        app_url: String::new(),
        state: "to do".to_string(),
        owner_ids: vec![],
        created_at: String::new(),
        updated_at: String::new(),
    }]);
    app.toggle_epic_selector();
    assert!(app.show_epic_selector);
    app.next_epic_selection();
    app.apply_selected_epic_filter();
    assert_eq!(app.selected_epic_filter, Some(77));
    assert_eq!(app.all_stories_list.len(), 1);
    assert_eq!(app.all_stories_list[0].id, 1);
    assert!(app.stories_by_state.get(20).is_none());
    assert_eq!(app.all_stories_unfiltered.len(), 2);
}

#[test]
fn refresh_empties_the_board() {
    let mut app = board_app(board_stories());
    app.handle_key_event(key('r')).unwrap();
    assert!(app.refresh_requested);
    assert_eq!(app.all_stories_list.len(), 0);
    assert_eq!(app.stories_by_state.len(), 0);
}

#[test]
fn member_names_fall_back_to_ids() {
    let mut app = board_app(board_stories());
    app.add_member_to_cache("u1".to_string(), "Alice".to_string());
    app.add_member_to_cache("u1".to_string(), "Alice B".to_string());
    let names = app.get_owner_names(&vec!["u1".to_string(), "u2".to_string()]);
    assert_eq!(names, vec!["Alice B".to_string(), "u2".to_string()]);
}

#[test]
fn clicks_on_links_in_the_detail_view() {
    let mut app = board_app(board_stories());
    app.show_detail = true;
    app.detail_area = Some(Area { x: 10, y: 5, width: 40, height: 20 });
    app.clickable_urls = vec![ClickableUrl { url: "https://x.test".to_string(), row: 3, start_col: 2, end_col: 15 }];
    assert_eq!(app.clicked_url(12, 8), Some("https://x.test".to_string()));
    assert_eq!(app.clicked_url(25, 8), Some("https://x.test".to_string()));
    assert_eq!(app.clicked_url(26, 8), None);
    assert_eq!(app.clicked_url(12, 9), None);
    app.show_detail = false;
    assert_eq!(app.clicked_url(12, 8), None);
}

#[test]
fn editor_from_text_splits_lines() {
    let t = textarea_with("a\nb\r\nc");
    assert_eq!(t.inner.lines().to_vec(), vec!["a".to_string(), "b".to_string(), "c".to_string()]);
}

#[test]
fn scrolling_the_detail_view_keeps_it_open_and_the_selection_put() {
    let mut app = board_app(board_stories());
    app.handle_key_event(KeyPress::new(KeyCode::Enter)).unwrap();
    let column = app.selected_column;
    let row = app.selected_row;
    app.handle_key_event(KeyPress::new(KeyCode::Down)).unwrap();
    assert_eq!(app.detail_scroll_offset, 1);
    assert!(app.show_detail);
    assert!(!app.should_quit);
    assert_eq!(app.selected_column, column);
    assert_eq!(app.selected_row, row);
    app.handle_key_event(KeyPress::new(KeyCode::Up)).unwrap();
    assert_eq!(app.detail_scroll_offset, 0);
    assert!(app.show_detail);
    assert_eq!(app.selected_row, row);
}

#[test]
fn down_then_up_gives_back_the_selection() {
    let mut app = board_app(board_stories());
    app.list_view_mode = true;
    let n = app.all_stories_list.len();
    assert!(n > 1);
    app.list_selected_index = n - 1;
    app.handle_key_event(KeyPress::new(KeyCode::Down)).unwrap();
    assert_eq!(app.list_selected_index, 0);
    app.handle_key_event(KeyPress::new(KeyCode::Up)).unwrap();
    assert_eq!(app.list_selected_index, n - 1);
}

#[test]
fn quitting_changes_nothing_else() {
    let mut app = board_app(board_stories());
    let row = app.selected_row;
    app.handle_key_event(key('q')).unwrap();
    assert!(app.should_quit);
    assert_eq!(app.selected_row, row);
    assert!(!app.show_detail);
}

#[test]
fn git_popup_branch_name_takes_typed_keys() {
    let mut app = board_app(board_stories());
    app.git_context = GitContext { repo_type: GitRepoType::Normal, current_branch: Some("main".to_string()) };
    app.handle_key_event(key('g')).unwrap();
    app.handle_key_event(key('e')).unwrap();
    assert!(app.git_popup_state.editing_branch_name);
    app.handle_key_event(KeyPress::new(KeyCode::End)).unwrap();
    app.handle_key_event(key('x')).unwrap();
    assert_eq!(text(&app.git_popup_state.branch_name_textarea), "sc-1-first-storyx");
}

#[test]
fn epic_popup_fields_take_typed_keys() {
    let mut app = board_app(board_stories());
    app.handle_key_event(key('E')).unwrap();
    assert!(app.show_create_epic_popup);
    app.handle_key_event(key('X')).unwrap();
    app.handle_key_event(KeyPress::new(KeyCode::Tab)).unwrap();
    app.handle_key_event(key('y')).unwrap();
    assert_eq!(text(&app.create_epic_popup_state.name_textarea), "X");
    assert_eq!(text(&app.create_epic_popup_state.description_textarea), "y");
}

#[test]
fn tab_in_the_edit_popup_changes_only_the_selected_field() {
    let mut app = edit_app();
    app.show_edit_popup = true;
    app.edit_popup_state = EditPopupState::from_story(&edit_story());
    app.handle_key_event(KeyPress::new(KeyCode::Tab)).unwrap();
    assert_eq!(app.edit_popup_state.selected_field, EditField::Description);
    assert!(!app.edit_story_requested);
    assert!(!app.should_quit);
    assert!(app.show_edit_popup);
    assert_eq!(text(&app.edit_popup_state.name_textarea), "Test Story");
}

#[test]
fn tab_in_the_epic_popup_changes_only_its_field() {
    let mut app = board_app(board_stories());
    app.handle_key_event(key('E')).unwrap();
    app.handle_key_event(KeyPress::new(KeyCode::Tab)).unwrap();
    assert!(app.show_create_epic_popup);
    assert!(!app.create_epic_requested);
    assert!(!app.should_quit);
}

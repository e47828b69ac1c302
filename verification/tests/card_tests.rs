use sc_cli::api::{Epic, Story, Workflow, WorkflowState};
use sc_cli::ui::app::App;
use sc_cli::ui::cards::{column_card, epic_field_label, field_label, is_owned, story_type_mark, words_of};

fn story(id: i64, story_type: &str, name: &str) -> Story {
    Story {
        id,
        name: name.to_string(),
        description: String::new(),
        workflow_state_id: 10,
        app_url: String::new(),
        story_type: story_type.to_string(),
        labels: vec![],
        owner_ids: vec![],
        position: 1,
        created_at: "2024-01-01T00:00:00Z".to_string(),
        updated_at: "2024-01-02T00:00:00Z".to_string(),
        completed_at: None,
        moved_at: None,
        comments: vec![],
        formatted_vcs_branch_name: None,
        epic_id: None,
        branches: vec![],
        pull_requests: vec![],
        commits: vec![],
    }
}

fn app() -> App {
    let states = vec![WorkflowState {
        id: 10,
        name: "To Do".to_string(),
        color: String::new(),
        position: 1,
        state_type: "unstarted".to_string(),
    }];
    App::new(vec![], vec![Workflow { id: 1, name: "Default".to_string(), states }], String::new(), None)
}

fn pair(a: &str, b: &str) -> (String, String) {
    (a.to_string(), b.to_string())
}

#[test]
fn a_short_name_stays_on_the_first_line() {
    assert_eq!(column_card(&story(7, "feature", "Fix"), 30), pair("[#7] ✨ Fix", ""));
}

#[test]
fn a_long_name_wraps_at_words_and_ends_with_dots() {
    let s = story(7, "feature", "Make the login page faster today");
    assert_eq!(column_card(&s, 20), pair("[#7] ✨ Make the", "login page faster..."));
}

#[test]
fn a_long_first_word_moves_the_name_to_the_second_line() {
    let s = story(7, "feature", "Refactoring everything");
    assert_eq!(column_card(&s, 12), pair("[#7] ✨ ", "Refactori..."));
    let s = story(7, "feature", "Refactoring");
    assert_eq!(column_card(&s, 14), pair("[#7] ✨ ", "Refactoring"));
}

#[test]
fn a_blank_long_name_shows_only_the_prefix() {
    let s = story(7, "feature", "              ");
    assert_eq!(column_card(&s, 12), pair("[#7] ✨ ", ""));
}

#[test]
fn the_list_card_names_the_state() {
    let a = app();
    assert_eq!(a.list_card(&story(7, "feature", "Fix"), 40), pair("[#7] ✨ [To Do] Fix", ""));
    assert_eq!(a.list_card(&story(7, "feature", "Fix"), 18), pair("[#7] ✨ [To Do] ", "Fix"));
    assert_eq!(a.list_card(&story(7, "bug", "Crash on start"), 10), pair("[#7] 🐞 [To Do] ", "Crash o..."));
    let mut other = story(8, "chore", "Tidy");
    other.workflow_state_id = 99;
    assert_eq!(a.list_card(&other, 40), pair("[#8] 🔧 [Unknown] Tidy", ""));
}

#[test]
fn story_types_have_marks() {
    assert_eq!(story_type_mark("feature"), "✨");
    assert_eq!(story_type_mark("bug"), "🐞");
    assert_eq!(story_type_mark("chore"), "🔧");
    assert_eq!(story_type_mark("epic"), "📝");
}

#[test]
fn words_follow_split_whitespace() {
    for text in ["", "a b", "  a\tb\n c  ", "one", "\u{3000}x\u{a0}y"] {
        let expected: Vec<String> = text.split_whitespace().map(|w| w.to_string()).collect();
        assert_eq!(words_of(text), expected, "{:?}", text);
    }
}

#[test]
fn ownership_needs_a_current_user_among_the_owners() {
    let owners = vec!["u1".to_string(), "u2".to_string()];
    assert!(is_owned(&Some("u2".to_string()), &owners));
    assert!(!is_owned(&Some("u3".to_string()), &owners));
    assert!(!is_owned(&None, &owners));
}

#[test]
fn choice_fields_mark_the_selected_one() {
    assert_eq!(field_label("bug", true), "< bug >");
    assert_eq!(field_label("bug", false), "bug");
    let epics = vec![Epic {
        id: 4,
        name: "Auth".to_string(),
        description: String::new(),
        app_url: String::new(),
        state: String::new(),
        owner_ids: vec![],
        created_at: String::new(),
        updated_at: String::new(),
    }];
    assert_eq!(epic_field_label(&epics, Some(4), true), "< Auth >");
    assert_eq!(epic_field_label(&epics, Some(4), false), "Auth");
    assert_eq!(epic_field_label(&epics, Some(5), true), "Unknown Epic");
    assert_eq!(epic_field_label(&epics, None, true), "< None >");
    assert_eq!(epic_field_label(&epics, None, false), "None");
}

use sc_cli::api::{Story, Workflow, WorkflowState};
use sc_cli::cli::{
    add_page, board_state_id, build_query, default_workspace, first_state_id, initial_state_id, keep_paging,
    member_display_name, named_workspace, parse_branch_story_id, parse_comment_story_id, parse_story_id,
    state_emoji, token_and_username, type_icon, validate_story_type, CommentInput, DEFAULT_STATE_ID,
    DONE_STATE_ID,
};
use sc_cli::config::{Config, WorkspaceConfig};
use sc_cli::git::naming::{name_slug, quick_branch_name, slug_from, story_prefixed, suggested_branch_name};
use sc_cli::text::{i64_to_text, is_blank, join_strings, parse_i64_str, trim_str};
use sc_cli::timekeeping::{instant_in_week, is_current_week};

fn story(id: i64, name: &str) -> Story {
    Story {
        id,
        name: name.to_string(),
        description: String::new(),
        workflow_state_id: 1,
        app_url: String::new(),
        story_type: "feature".to_string(),
        labels: vec![],
        owner_ids: vec![],
        position: 0,
        created_at: String::new(),
        updated_at: String::new(),
        completed_at: None,
        moved_at: None,
        comments: vec![],
        formatted_vcs_branch_name: None,
        epic_id: None,
        branches: vec![],
        pull_requests: vec![],
        commits: vec![],
    }
}

fn state(id: i64, name: &str) -> WorkflowState {
    WorkflowState {
        id,
        name: name.to_string(),
        color: String::new(),
        position: 1,
        state_type: String::new(),
    }
}

fn config_with(names: &[&str], default: Option<&str>) -> Config {
    Config {
        workspaces: names.iter().map(|n| n.to_string()).collect(),
        default_workspace: default.map(|d| d.to_string()),
        workspace_configs: names
            .iter()
            .map(|n| {
                (
                    n.to_string(),
                    WorkspaceConfig { api_key: format!("{}-key", n), user_id: format!("{}.user", n), fetch_limit: 50 },
                )
            })
            .collect(),
    }
}

#[test]
fn story_type_validation() {
    assert_eq!(validate_story_type("bug"), Ok("bug".to_string()));
    assert_eq!(validate_story_type("feature"), Ok("feature".to_string()));
    assert_eq!(
        validate_story_type("epic"),
        Err("Invalid story type 'epic'. Must be one of: feature, bug, chore".to_string())
    );
}

#[test]
fn story_id_forms() {
    assert_eq!(parse_story_id("123").unwrap(), 123);
    assert_eq!(parse_story_id("sc-42").unwrap(), 42);
    assert_eq!(parse_story_id("SC-42").unwrap(), 42);
    assert_eq!(
        parse_story_id("sc-abc").unwrap_err().to_string(),
        "Invalid story ID format. Expected 'sc-N' where N is a number"
    );
    assert_eq!(
        parse_story_id("abc").unwrap_err().to_string(),
        "Invalid story ID format. Expected a number or 'sc-N' format"
    );
}

#[test]
fn comment_and_branch_story_ids() {
    assert_eq!(parse_comment_story_id("sc-7").unwrap(), 7);
    assert_eq!(parse_comment_story_id("7").unwrap(), 7);
    assert_eq!(parse_comment_story_id("SC-7").unwrap_err().to_string(), "Invalid story ID: SC-7");
    assert_eq!(parse_branch_story_id("SC-9").unwrap(), 9);
    assert_eq!(parse_branch_story_id("sc-sc-9").unwrap(), 9);
    assert_eq!(parse_branch_story_id("x9").unwrap_err().to_string(), "Invalid story ID: x9");
}

#[test]
fn workspace_choice() {
    let c = config_with(&["a", "b"], Some("b"));
    assert_eq!(named_workspace(&c, "a").unwrap().api_key, "a-key");
    let e = named_workspace(&c, "z").unwrap_err();
    assert_eq!(e.to_string(), "Failed to get workspace 'z'");
    assert_eq!(e.causes, vec!["Workspace 'z' not found in config".to_string()]);
    assert_eq!(default_workspace(Some(&c), false).unwrap().api_key, "b-key");

    let none = config_with(&["a", "b"], None);
    assert_eq!(
        default_workspace(Some(&none), true).unwrap_err().to_string(),
        "No default workspace configured. Use --workspace to specify one or provide --token and username"
    );
    assert_eq!(
        default_workspace(None, false).unwrap_err().to_string(),
        "No configuration file found. Use --workspace to create one or provide --token"
    );
}

#[test]
fn token_and_username_needed_together() {
    assert_eq!(
        token_and_username(Some("t".to_string()), Some("u".to_string())).unwrap(),
        ("t".to_string(), "u".to_string())
    );
    assert_eq!(
        token_and_username(None, Some("u".to_string())).unwrap_err().to_string(),
        "Either --token or --workspace must be provided"
    );
    assert_eq!(
        token_and_username(Some("t".to_string()), None).unwrap_err().to_string(),
        "Either username or --workspace must be provided"
    );
}

#[test]
fn search_queries() {
    assert_eq!(build_query(None, false, false, "alice", None), "owner:alice is:story");
    assert_eq!(build_query(None, false, true, "alice", Some("bug".to_string())), "requester:alice type:bug is:story");
    assert_eq!(build_query(None, true, false, "alice", None), "is:story");
    assert_eq!(build_query(Some("label:x".to_string()), false, false, "alice", None), "label:x");
}

#[test]
fn paging_adds_new_ids_up_to_room() {
    let mut loaded = vec![story(1, "a")];
    let added = add_page(&mut loaded, vec![story(1, "a"), story(2, "b"), story(2, "b"), story(3, "c")], 5);
    assert_eq!(added, 2);
    assert_eq!(loaded.iter().map(|s| s.id).collect::<Vec<_>>(), vec![1, 2, 3]);
    let added = add_page(&mut loaded, vec![story(4, "d"), story(5, "e")], 1);
    assert_eq!(added, 1);
    assert_eq!(loaded.len(), 4);
    assert!(keep_paging(4, 10, true, 1));
    assert!(!keep_paging(10, 10, true, 1));
    assert!(!keep_paging(4, 10, false, 1));
    assert!(!keep_paging(4, 10, true, 0));
}

#[test]
fn shown_texts() {
    assert_eq!(member_display_name("Alice", "alice"), "Alice (alice)");
    assert_eq!(type_icon("bug"), ("🐞", "\x1b[31m"));
    assert_eq!(type_icon("other"), ("📝", "\x1b[37m"));
    assert_eq!(state_emoji("To Do"), "📌");
    assert_eq!(state_emoji("Backlog"), "📋");
    assert_eq!(state_emoji("In Progress"), "🔄");
    assert_eq!(state_emoji("Ready for Review"), "👀");
    assert_eq!(state_emoji("Done"), "✅");
}

#[test]
fn initial_states() {
    let wf = vec![Workflow { id: 1, name: "W".to_string(), states: vec![state(11, "A"), state(12, "B")] }];
    assert_eq!(first_state_id(&wf), Some(11));
    assert_eq!(initial_state_id(&wf).unwrap(), 11);
    assert_eq!(board_state_id(&wf), 11);
    let empty: Vec<Workflow> = vec![];
    assert_eq!(initial_state_id(&empty).unwrap_err().to_string(), "No workflows found in the workspace");
    assert_eq!(board_state_id(&empty), DEFAULT_STATE_ID);
    assert_eq!(DEFAULT_STATE_ID, 500000007);
    assert_eq!(DONE_STATE_ID, 500000010);
}

#[test]
fn comment_input_ends_at_second_empty_line() {
    let mut c = CommentInput::new();
    assert!(!c.feed("  hello\n"));
    assert!(!c.feed("\n"));
    assert!(!c.feed("world\n"));
    assert!(!c.feed("\n"));
    assert!(c.feed("\n"));
    assert_eq!(c.finish(), "hello\n\nworld");
}

#[test]
fn branch_names() {
    let s = story(42, "Fix the Login/Signup Bug, please now!");
    assert_eq!(name_slug("Fix the Login/Signup Bug, please now!"), "fix-the-login-signup-bug");
    assert_eq!(suggested_branch_name(&s), "sc-42-fix-the-login-signup-bug");
    assert_eq!(quick_branch_name(&s), "sc-42-fix-the-login-signup-bug,-please-now!");
    let mut t = story(5, "x");
    t.formatted_vcs_branch_name = Some("feature/sc-5".to_string());
    assert_eq!(suggested_branch_name(&t), "feature/sc-5");
    assert_eq!(quick_branch_name(&t), "feature/sc-5");
}

#[test]
fn text_helpers() {
    assert_eq!(sc_cli::text::concat("ab", "cd"), "abcd");
    assert_eq!(trim_str("  x y \n"), "x y");
    assert!(is_blank(" \t\n"));
    assert!(!is_blank(" a "));
    assert_eq!(join_strings(&vec!["a".to_string(), "b".to_string()], ", "), "a, b");
    assert_eq!(parse_i64_str("-17"), Some(-17));
    assert_eq!(parse_i64_str("+5"), Some(5));
    assert_eq!(parse_i64_str("1x"), None);
    assert_eq!(parse_i64_str("9223372036854775808"), None);
    assert_eq!(i64_to_text(-305), "-305");
    assert_eq!(i64_to_text(0), "0");
}

#[test]
fn week_membership() {
    // 2024-01-03 (a Wednesday) 12:00 UTC.
    let now = 1_704_283_200;
    assert!(instant_in_week(1_704_067_200, now));
    assert!(!instant_in_week(1_704_067_199, now));
    assert!(instant_in_week(1_704_671_999, now));
    assert!(!instant_in_week(1_704_672_000, now));
    assert!(is_current_week("2024-01-03T13:00:00+01:00", now));
    assert!(is_current_week("2024-01-01T00:00:00Z", now));
    assert!(is_current_week("2024-01-07T23:59:59Z", now));
    assert!(!is_current_week("2023-12-31T23:59:59Z", now));
    assert!(!is_current_week("2024-01-08T00:00:00Z", now));
    assert!(!is_current_week("not a date", now));
}

#[test]
fn slugs_cut_at_the_marked_characters() {
    let lower = "fix the-bug now";
    let marks: Vec<bool> = lower.chars().map(|c| c != ' ' && c != '-').collect();
    assert_eq!(slug_from(lower, &marks), "fix-the-bug-now");
    let all: Vec<bool> = lower.chars().map(|_| true).collect();
    assert_eq!(slug_from(lower, &all), "fix the-bug now");
    let words = "a b c d e f g";
    let marks: Vec<bool> = words.chars().map(|c| c != ' ').collect();
    assert_eq!(slug_from(words, &marks), "a-b-c-d-e");
    assert_eq!(story_prefixed(42, "fix"), "sc-42-fix");
    assert_eq!(name_slug("Ünïcode Ärger"), "ünïcode-ärger");
}

#[test]
fn lower_case_state_names_choose_the_emoji() {
    assert_eq!(sc_cli::cli::lower_state_emoji("in progress"), "🔄");
    assert_eq!(sc_cli::cli::lower_state_emoji("ready for review"), "👀");
    assert_eq!(sc_cli::cli::lower_state_emoji("backlog"), "📋");
    assert_eq!(sc_cli::cli::lower_state_emoji("completed"), "✅");
    assert_eq!(sc_cli::cli::lower_state_emoji("blocked"), "📌");
    assert_eq!(sc_cli::cli::state_emoji("IN PROGRESS"), "🔄");
}

#[test]
fn story_id_errors_keep_why_the_number_did_not_parse() {
    let e = parse_story_id("sc-abc").unwrap_err();
    assert_eq!(e.causes, vec!["invalid digit found in string".to_string()]);
    let e = parse_story_id("sc-").unwrap_err();
    assert_eq!(e.causes, vec!["cannot parse integer from empty string".to_string()]);
    let e = parse_story_id("99999999999999999999").unwrap_err();
    assert_eq!(e.causes, vec!["number too large to fit in target type".to_string()]);
    let e = parse_comment_story_id("SC-7").unwrap_err();
    assert_eq!(e.causes, vec!["invalid digit found in string".to_string()]);
    let e = parse_branch_story_id("x9").unwrap_err();
    assert_eq!(e.causes, vec!["invalid digit found in string".to_string()]);
}

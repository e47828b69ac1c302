use sc_cli::api::Story;
use sc_cli::listing::{next_page_step, story_listing, PageStep};

fn story(id: i64, description: &str, state: i64, owners: &[&str], story_type: &str) -> Story {
    Story {
        id,
        name: "Fix login".to_string(),
        description: description.to_string(),
        workflow_state_id: state,
        app_url: format!("https://app.shortcut.com/org/story/{}", id),
        story_type: story_type.to_string(),
        labels: vec![],
        owner_ids: owners.iter().map(|o| o.to_string()).collect(),
        position: 1000,
        created_at: "2024-01-01T00:00:00Z".to_string(),
        updated_at: "2024-01-01T00:00:00Z".to_string(),
        completed_at: None,
        moved_at: None,
        comments: vec![],
        formatted_vcs_branch_name: None,
        epic_id: None,
        branches: vec![],
        pull_requests: vec![],
        commits: vec![],
    }
}

#[test]
fn listing_shows_title_description_owners_and_details() {
    let names = vec![(10, "Old name".to_string()), (10, "In Progress".to_string())];
    let members = vec![("u1".to_string(), "Alice".to_string())];
    let s = story(42, "First line\r\nSecond line", 10, &["u1", "u2"], "bug");
    let lines = story_listing(&s, &names, &members);
    assert_eq!(
        lines,
        vec![
            "\x1b[1;36m⚡ #42 - Fix login\x1b[0m".to_string(),
            "   \x1b[37m📄 First line\x1b[0m".to_string(),
            "   \x1b[33m👤 Owner(s): Alice, u2\x1b[0m".to_string(),
            "   🔄 \x1b[35mIn Progress\x1b[0m | 🐞\x1b[31m bug\x1b[0m | \x1b[36m🔗 https://app.shortcut.com/org/story/42\x1b[0m"
                .to_string(),
            String::new(),
        ]
    );
}

#[test]
fn listing_leaves_out_an_empty_description_and_unknown_state_names() {
    let s = story(7, "\nlater text", 99, &[], "feature");
    let lines = story_listing(&s, &vec![], &vec![]);
    assert_eq!(
        lines,
        vec![
            "\x1b[1;36m⚡ #7 - Fix login\x1b[0m".to_string(),
            "   📌 \x1b[35m99\x1b[0m | ✨\x1b[32m feature\x1b[0m | \x1b[36m🔗 https://app.shortcut.com/org/story/7\x1b[0m"
                .to_string(),
            String::new(),
        ]
    );
}

#[test]
fn a_last_line_keeps_its_carriage_return() {
    let s = story(1, "only\r", 1, &[], "chore");
    let lines = story_listing(&s, &vec![(1, "Done".to_string())], &vec![]);
    assert_eq!(lines[1], "   \x1b[37m📄 only\r\x1b[0m");
    assert!(lines[2].starts_with("   ✅ \x1b[35mDone"));
}

#[test]
fn paging_steps() {
    assert!(matches!(next_page_step(0, 0, false), PageStep::FetchFirst));
    assert!(matches!(next_page_step(5, 2, false), PageStep::Show));
    assert!(matches!(next_page_step(5, 5, true), PageStep::FetchNext));
    assert!(matches!(next_page_step(5, 5, false), PageStep::Finish));
}

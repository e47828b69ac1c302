use sc_cli::api::{Branch, Comment, Commit, Epic, PullRequest, Story, Workflow, WorkflowState};
use sc_cli::ui::app::App;
use sc_cli::ui::detail::{detail_window, text_lines_of, visible_links, DetailText, Tone};
use sc_cli::ui::popups::{Area, ClickableUrl};

fn story(id: i64, description: &str) -> Story {
    Story {
        id,
        name: "Fix login".to_string(),
        description: description.to_string(),
        workflow_state_id: 10,
        app_url: "https://app.shortcut.com/org/story/7".to_string(),
        story_type: "bug".to_string(),
        labels: vec![],
        owner_ids: vec![],
        position: 1,
        created_at: "2024-01-01T00:00:00Z".to_string(),
        updated_at: "2024-01-02T00:00:00Z".to_string(),
        completed_at: None,
        moved_at: None,
        comments: vec![],
        formatted_vcs_branch_name: None,
        epic_id: None,
        branches: vec![],
        pull_requests: vec![],
        commits: vec![],
    }
}

fn app(stories: Vec<Story>) -> App {
    let states = vec![WorkflowState {
        id: 10,
        name: "To Do".to_string(),
        color: String::new(),
        position: 1,
        state_type: "unstarted".to_string(),
    }];
    App::new(stories, vec![Workflow { id: 1, name: "Default".to_string(), states }], String::new(), None)
}

fn line_texts(t: &DetailText) -> Vec<String> {
    t.lines.iter().map(|l| l.iter().map(|s| s.text.clone()).collect::<Vec<_>>().concat()).collect()
}

fn link(url: &str, row: u16, start_col: u16, end_col: u16) -> ClickableUrl {
    ClickableUrl { url: url.to_string(), row, start_col, end_col }
}

#[test]
fn the_detail_text_lists_the_story_fields_in_order() {
    let s = story(7, "first\r\nsecond\n");
    let a = app(vec![story(7, "")]);
    let t = a.detail_text(&s);
    assert_eq!(
        line_texts(&t),
        vec![
            "ID: 7",
            "",
            "Name: Fix login",
            "",
            "Type: bug",
            "",
            "State: To Do",
            "",
            "Owners: Unassigned",
            "",
            "Description:",
            "first",
            "second",
            "",
            "URL: https://app.shortcut.com/org/story/7",
        ]
    );
    assert_eq!(t.lines[0][0].tone, Tone::Label);
    assert_eq!(t.lines[14][1].tone, Tone::Link);
    assert_eq!(t.links.len(), 1);
    assert_eq!(t.links[0].url, "https://app.shortcut.com/org/story/7");
    assert_eq!((t.links[0].row, t.links[0].start_col, t.links[0].end_col), (14, 5, 41));
}

#[test]
fn an_empty_description_and_a_listed_epic_are_shown() {
    let mut s = story(7, "");
    s.epic_id = Some(3);
    s.owner_ids = vec!["u1".to_string(), "u2".to_string()];
    let mut a = app(vec![]);
    a.set_epics(vec![Epic {
        id: 3,
        name: "Auth".to_string(),
        description: String::new(),
        app_url: String::new(),
        state: String::new(),
        owner_ids: vec![],
        created_at: String::new(),
        updated_at: String::new(),
    }]);
    a.add_member_to_cache("u1".to_string(), "Ann (ann)".to_string());
    let t = a.detail_text(&s);
    let texts = line_texts(&t);
    assert_eq!(texts[8], "Epic: Auth");
    assert_eq!(t.lines[8][1].tone, Tone::EpicName);
    assert_eq!(texts[10], "Owners: Ann (ann), u2");
    assert_eq!(texts[13], "No description available");
    assert_eq!(t.links[0].row, 15);
}

#[test]
fn branches_pull_requests_commits_and_comments_have_their_sections() {
    let mut s = story(7, "d");
    s.branches = vec![Branch { name: "sc-7".to_string(), url: "https://b".to_string() }];
    s.pull_requests = vec![PullRequest {
        title: "Fix".to_string(),
        url: "https://pr".to_string(),
        merged: false,
        closed: false,
        draft: true,
    }];
    s.commits = (0..7)
        .map(|i| Commit {
            hash: format!("abcdef123{}", i),
            message: format!("commit {}\nmore", i),
            url: format!("https://c/{}", i),
        })
        .collect();
    s.comments = vec![Comment {
        id: 1,
        text: "looks good\nship it".to_string(),
        author_id: "u9".to_string(),
        created_at: "2024-02-02".to_string(),
        updated_at: String::new(),
    }];
    let t = app(vec![]).detail_text(&s);
    let texts = line_texts(&t);
    let url_row = 13;
    assert_eq!(texts[url_row], "URL: https://app.shortcut.com/org/story/7");
    assert_eq!(texts[url_row + 2], "Git Branches:");
    assert_eq!(texts[url_row + 3], "  sc-7 - https://b");
    assert_eq!(texts[url_row + 5], "Pull Requests:");
    assert_eq!(texts[url_row + 6], "  Fix [draft]");
    assert_eq!(t.lines[url_row + 6][3].tone, Tone::Draft);
    assert_eq!(texts[url_row + 7], "    https://pr");
    assert_eq!(texts[url_row + 9], "Recent Commits:");
    assert_eq!(texts[url_row + 10], "  abcdef1 - commit 0");
    assert_eq!(texts[url_row + 11], "    https://c/0");
    assert_eq!(texts[url_row + 20], "  ... and 2 more commits");
    assert_eq!(texts[url_row + 22], "Comments:");
    assert_eq!(texts[url_row + 24], "u9 - 2024-02-02");
    assert_eq!(texts[url_row + 25], "  looks good");
    assert_eq!(texts[url_row + 26], "  ship it");
    assert_eq!(texts[url_row + 27], "");
    assert_eq!(texts.len(), url_row + 28);
    // The story link, the branch, the pull request and five commits.
    assert_eq!(t.links.len(), 8);
    let b = &t.links[1];
    assert_eq!((b.url.as_str(), b.row, b.start_col, b.end_col), ("https://b", 16, 9, 18));
    let pr = &t.links[2];
    assert_eq!((pr.row, pr.start_col, pr.end_col), (20, 4, 14));
    assert_eq!(t.links[7].row, 32);
    let urls: Vec<&str> = t.links.iter().map(|l| l.url.as_str()).collect();
    assert_eq!(
        urls,
        vec![
            "https://app.shortcut.com/org/story/7",
            "https://b",
            "https://pr",
            "https://c/0",
            "https://c/1",
            "https://c/2",
            "https://c/3",
            "https://c/4",
        ]
    );
}

#[test]
fn the_window_keeps_the_view_full() {
    assert_eq!(detail_window(30, 10, 25), (20, 30, Some((21, 21))));
    assert_eq!(detail_window(30, 10, 4), (4, 14, Some((5, 21))));
    assert_eq!(detail_window(5, 10, 3), (0, 5, None));
    assert_eq!(detail_window(0, 10, 0), (0, 0, None));
}

#[test]
fn only_links_in_the_window_stay_counted_from_its_border() {
    let links = vec![link("a", 14, 5, 9), link("b", 3, 4, 8), link("c", 40, 4, 8), link("d", 10, 2, 3)];
    let shown = visible_links(links, 10, 20);
    let rows: Vec<(String, u16)> = shown.iter().map(|l| (l.url.clone(), l.row)).collect();
    assert_eq!(rows, vec![("a".to_string(), 5), ("d".to_string(), 1)]);
}

#[test]
fn a_shown_link_can_be_clicked() {
    let s = story(7, "d");
    let mut a = app(vec![s]);
    a.toggle_detail();
    let t = a.detail_text(&story(7, "d"));
    let (start, end, _) = detail_window(t.lines.len(), 20, 0);
    a.clickable_urls = visible_links(t.links, start, end);
    a.detail_area = Some(Area { x: 0, y: 0, width: 80, height: 22 });
    // The link line is the 14th line of the text, one row below the border.
    assert_eq!(a.clicked_url(10, 14), Some("https://app.shortcut.com/org/story/7".to_string()));
    assert_eq!(a.clicked_url(2, 14), None);
}

#[test]
fn text_lines_follow_str_lines() {
    for text in ["", "a", "a\n", "a\n\nb", "a\r\nb\r", "\n", "x\r\n\r\n"] {
        let expected: Vec<String> = text.lines().map(|l| l.to_string()).collect();
        assert_eq!(text_lines_of(text), expected, "{:?}", text);
    }
}

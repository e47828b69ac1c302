use sc_cli::api::{CurrentMember, Epic, Error, Member, SearchStoriesResult, ShortcutApi, Story, Workflow};
use sc_cli::story_creator::{creation_result, StoryCreator};
use sc_cli::story_editor::{story_type_at, story_type_position, update_result, StoryEditor};
use sc_cli::story_input::{line_content_of, DescriptionInput};

fn story(id: i64, name: &str, description: &str, state: i64) -> Story {
    Story {
        id,
        name: name.to_string(),
        description: description.to_string(),
        workflow_state_id: state,
        app_url: format!("https://app.shortcut.com/org/story/{}", id),
        story_type: "feature".to_string(),
        labels: vec![],
        owner_ids: vec![],
        position: 1000,
        created_at: "2024-01-01T00:00:00Z".to_string(),
        updated_at: "2024-01-01T00:00:00Z".to_string(),
        completed_at: None,
        moved_at: None,
        comments: vec![],
        formatted_vcs_branch_name: None,
        epic_id: None,
        branches: vec![],
        pull_requests: vec![],
        commits: vec![],
    }
}

struct MockApi {
    should_fail: bool,
    expected_story: Story,
}

impl ShortcutApi for MockApi {
    fn search_stories(&self, _query: &str, _limit: Option<usize>) -> Result<Vec<Story>, Error> {
        Ok(vec![])
    }

    fn search_stories_page(&self, _query: &str, _next_token: Option<String>) -> Result<SearchStoriesResult, Error> {
        Ok(SearchStoriesResult { stories: vec![], next_page_token: None, total: None })
    }

    fn get_workflows(&self) -> Result<Vec<Workflow>, Error> {
        Ok(vec![])
    }

    fn get_story(&self, _story_id: i64) -> Result<Story, Error> {
        Ok(self.expected_story.clone())
    }

    fn update_story_state(&self, _story_id: i64, _workflow_state_id: i64) -> Result<Story, Error> {
        Ok(self.expected_story.clone())
    }

    fn get_current_member(&self) -> Result<CurrentMember, Error> {
        Ok(CurrentMember { id: "user-123".to_string(), name: "Test".to_string(), mention_name: "test".to_string() })
    }

    fn update_story(&self, _story_id: i64, _owner_ids: Vec<String>) -> Result<Story, Error> {
        Ok(self.expected_story.clone())
    }

    fn update_story_details(
        &self,
        _story_id: i64,
        _name: String,
        _description: String,
        _story_type: String,
        _epic_id: Option<i64>,
    ) -> Result<Story, Error> {
        if self.should_fail {
            Err(Error::new("API Error"))
        } else {
            Ok(self.expected_story.clone())
        }
    }

    fn get_members(&self) -> Result<Vec<Member>, Error> {
        Ok(vec![])
    }

    fn create_story(
        &self,
        _name: String,
        _description: String,
        _story_type: String,
        _requested_by_id: String,
        _workflow_state_id: i64,
        _epic_id: Option<i64>,
    ) -> Result<Story, Error> {
        if self.should_fail {
            Err(Error::new("API Error"))
        } else {
            Ok(self.expected_story.clone())
        }
    }

    fn get_epics(&self) -> Result<Vec<Epic>, Error> {
        Ok(vec![])
    }

    fn create_epic(&self, _name: String, _description: String) -> Result<Epic, Error> {
        Err(Error::new("not used"))
    }

    fn add_comment(&self, _story_id: i64, _text: &str) -> Result<(), Error> {
        Ok(())
    }
}

#[test]
fn test_story_creator_new() {
    let creator = StoryCreator::new(
        "Test Story".to_string(),
        "Test Description".to_string(),
        "feature".to_string(),
        "user-123".to_string(),
        456,
    );

    assert_eq!(creator.name, "Test Story");
    assert_eq!(creator.description, "Test Description");
    assert_eq!(creator.story_type, "feature");
    assert_eq!(creator.requested_by_id, "user-123");
}

#[test]
fn test_story_creator_create_success() {
    let mock_story = story(123, "Test Story", "Test Description", 456);
    let mock_api = MockApi { should_fail: false, expected_story: mock_story.clone() };

    let creator = StoryCreator::new(
        "Test Story".to_string(),
        "Test Description".to_string(),
        "feature".to_string(),
        "user-123".to_string(),
        456,
    );

    let result = creator.create(&mock_api);
    assert!(result.is_ok());

    let created_story = result.unwrap();
    assert_eq!(created_story.id, 123);
    assert_eq!(created_story.name, "Test Story");
}

#[test]
fn test_story_creator_create_failure() {
    let mock_story = story(0, "", "", 0);
    let mock_api = MockApi { should_fail: true, expected_story: mock_story };

    let creator = StoryCreator::new(
        "Test Story".to_string(),
        "Test Description".to_string(),
        "feature".to_string(),
        "user-123".to_string(),
        456,
    );

    let result = creator.create(&mock_api);
    assert!(result.is_err());
    assert!(result.unwrap_err().to_string().contains("Failed to create story"));
}

#[test]
fn test_story_editor_from_story() {
    let mut s = story(123, "Test Story", "Test description", 1);
    s.app_url = "https://example.com".to_string();
    s.position = 1;
    s.created_at = "2023-01-01T00:00:00Z".to_string();
    s.updated_at = "2023-01-01T00:00:00Z".to_string();

    let editor = StoryEditor::from_story(&s);

    assert_eq!(editor.story_id, 123);
    assert_eq!(editor.name, "Test Story");
    assert_eq!(editor.description, "Test description");
    assert_eq!(editor.story_type, "feature");
}

#[test]
fn creation_result_keeps_the_error_as_cause() {
    let r = creation_result(Err(Error::new("boom")));
    let e = r.unwrap_err();
    assert_eq!(e.message, "Failed to create story");
    assert_eq!(e.causes, vec!["boom".to_string()]);
}

#[test]
fn update_result_passes_story_through() {
    let r = update_result(Ok(story(5, "A", "B", 1)));
    assert_eq!(r.unwrap().id, 5);
    let e = update_result(Err(Error::new("down"))).unwrap_err();
    assert_eq!(e.to_string(), "Failed to update story");
    assert_eq!(e.causes, vec!["down".to_string()]);
}

#[test]
fn story_editor_update_reports_failure() {
    let api = MockApi { should_fail: true, expected_story: story(1, "", "", 1) };
    let editor = StoryEditor::from_story(&story(1, "N", "D", 1));
    let e = editor.update(&api).unwrap_err();
    assert_eq!(e.to_string(), "Failed to update story");
}

#[test]
fn story_editor_apply_edits_detects_changes() {
    let mut editor = StoryEditor::from_story(&story(7, "Name", "Desc", 1));
    assert!(!editor.apply_edits("Name".to_string(), "Desc".to_string(), "feature".to_string()));
    assert_eq!(editor.name, "Name");
    assert!(editor.apply_edits("Other".to_string(), "Desc".to_string(), "bug".to_string()));
    assert_eq!(editor.name, "Other");
    assert_eq!(editor.story_type, "bug");
    assert_eq!(editor.story_id, 7);
}

#[test]
fn story_type_positions() {
    assert_eq!(story_type_position("feature"), 0);
    assert_eq!(story_type_position("bug"), 1);
    assert_eq!(story_type_position("chore"), 2);
    assert_eq!(story_type_position("epic"), 0);
    assert_eq!(story_type_at(1), "bug");
    assert_eq!(story_type_at(2), "chore");
}

#[test]
fn description_input_stops_after_two_empty_lines() {
    let mut input = DescriptionInput::new();
    assert!(!input.feed("first line\n"));
    assert!(!input.feed("\r\n"));
    assert!(!input.feed("second\r\n"));
    assert!(!input.feed("\n"));
    assert!(input.feed("\n"));
    assert_eq!(input.finish(), "first line\n\nsecond");
}

#[test]
fn line_content_strips_line_endings() {
    assert_eq!(line_content_of("abc\r\n"), "abc");
    assert_eq!(line_content_of("abc"), "abc");
    assert_eq!(line_content_of("\n"), "");
}

#[test]
fn creation_request_sends_the_held_values_and_no_epic() {
    let creator = StoryCreator::new(
        "Name".to_string(),
        "Description".to_string(),
        "bug".to_string(),
        "user-9".to_string(),
        77,
    );
    assert_eq!(
        creator.creation_request(),
        ("Name".to_string(), "Description".to_string(), "bug".to_string(), "user-9".to_string(), 77, None)
    );
}

#[test]
fn update_request_sends_the_held_values_and_no_epic() {
    let editor = StoryEditor::from_story(&story(5, "Old", "Text", 1));
    assert_eq!(
        editor.update_request(),
        (5, "Old".to_string(), "Text".to_string(), "feature".to_string(), None)
    );
}

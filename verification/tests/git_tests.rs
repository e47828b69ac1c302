use sc_cli::api::{
    CurrentMember, Epic, Error, Member, SearchStoriesResult, ShortcutApi, Story, Workflow, WorkflowState,
};
use sc_cli::git::operations::{
    begin_git_operation, branch_command_request, default_operation_for_context, find_in_progress_state_id, git_operation_step,
    in_progress_request, is_git_available, move_story_to_in_progress, GitCommand, GitEvent, GitStep,
    GitBranchRequest, GitBranchResult, GitOperation,
};
use sc_cli::git::{generate_worktree_path, GitContext, GitRepoType};

fn test_story(id: i64) -> Story {
    Story {
        id,
        name: "Test Story".to_string(),
        description: "Description".to_string(),
        workflow_state_id: 1,
        app_url: format!("https://app.shortcut.com/story/{}", id),
        story_type: "feature".to_string(),
        labels: vec![],
        owner_ids: vec![],
        position: 0,
        created_at: "2024-01-01T00:00:00Z".to_string(),
        updated_at: "2024-01-01T00:00:00Z".to_string(),
        completed_at: None,
        moved_at: None,
        comments: vec![],
        formatted_vcs_branch_name: None,
        epic_id: None,
        branches: vec![],
        pull_requests: vec![],
        commits: vec![],
    }
}

struct MockShortcutApi {
    should_fail: bool,
}

impl MockShortcutApi {
    fn new_success() -> Self {
        MockShortcutApi { should_fail: false }
    }

    fn new_failure() -> Self {
        MockShortcutApi { should_fail: true }
    }
}

impl ShortcutApi for MockShortcutApi {
    fn search_stories(&self, _query: &str, _limit: Option<usize>) -> Result<Vec<Story>, Error> {
        Ok(vec![])
    }

    fn search_stories_page(&self, _query: &str, _next_token: Option<String>) -> Result<SearchStoriesResult, Error> {
        Ok(SearchStoriesResult { stories: vec![], next_page_token: None, total: None })
    }

    fn get_workflows(&self) -> Result<Vec<Workflow>, Error> {
        Ok(vec![])
    }

    fn get_story(&self, story_id: i64) -> Result<Story, Error> {
        Ok(test_story(story_id))
    }

    fn update_story_state(&self, story_id: i64, _workflow_state_id: i64) -> Result<Story, Error> {
        if self.should_fail {
            Err(Error::new("API Error"))
        } else {
            Ok(test_story(story_id))
        }
    }

    fn get_current_member(&self) -> Result<CurrentMember, Error> {
        Ok(CurrentMember {
            id: "user-1".to_string(),
            name: "Test User".to_string(),
            mention_name: "testuser".to_string(),
        })
    }

    fn update_story(&self, _story_id: i64, _owner_ids: Vec<String>) -> Result<Story, Error> {
        Ok(test_story(123))
    }

    fn update_story_details(
        &self,
        _story_id: i64,
        _name: String,
        _description: String,
        _story_type: String,
        _epic_id: Option<i64>,
    ) -> Result<Story, Error> {
        Ok(test_story(123))
    }

    fn get_members(&self) -> Result<Vec<Member>, Error> {
        Ok(vec![])
    }

    fn create_story(
        &self,
        _name: String,
        _description: String,
        _story_type: String,
        _requested_by_id: String,
        _workflow_state_id: i64,
        _epic_id: Option<i64>,
    ) -> Result<Story, Error> {
        Ok(test_story(123))
    }

    fn get_epics(&self) -> Result<Vec<Epic>, Error> {
        Ok(vec![])
    }

    fn create_epic(&self, name: String, description: String) -> Result<Epic, Error> {
        Ok(Epic {
            id: 1,
            name,
            description,
            app_url: "https://app.shortcut.com/epic/1".to_string(),
            state: "to do".to_string(),
            owner_ids: vec![],
            created_at: "2024-01-01T00:00:00Z".to_string(),
            updated_at: "2024-01-01T00:00:00Z".to_string(),
        })
    }

    fn add_comment(&self, _story_id: i64, _text: &str) -> Result<(), Error> {
        Ok(())
    }
}

fn state(id: i64, name: &str, position: i64, state_type: &str) -> WorkflowState {
    WorkflowState {
        id,
        name: name.to_string(),
        color: "#ffffff".to_string(),
        position,
        state_type: state_type.to_string(),
    }
}

fn create_test_workflows() -> Vec<Workflow> {
    vec![Workflow {
        id: 1,
        name: "Development".to_string(),
        states: vec![
            state(100, "Backlog", 0, "unstarted"),
            state(101, "In Progress", 1, "started"),
            state(102, "Done", 2, "done"),
        ],
    }]
}

#[test]
fn test_generate_worktree_path() {
    assert_eq!(generate_worktree_path("feature/test"), "../feature-test");
    assert_eq!(generate_worktree_path("edo/sc-63/story-name"), "../edo-sc-63-story-name");
    assert_eq!(generate_worktree_path("simple"), "../simple");
}

#[test]
fn test_generate_worktree_path_spaces_and_backslashes() {
    assert_eq!(generate_worktree_path("a b\\c"), "../a-b-c");
    assert_eq!(generate_worktree_path(""), "../");
}

#[test]
fn test_git_branch_result_success() {
    let request = GitBranchRequest {
        branch_name: "feature/test".to_string(),
        worktree_path: "../feature-test".to_string(),
        operation: GitOperation::CreateBranch,
        story_id: 123,
    };
    let result = GitBranchResult::success("Success!".to_string(), &request);
    assert!(result.success);
    assert_eq!(result.branch_name, "feature/test");
    assert!(result.worktree_path.is_none());
    assert_eq!(result.story_id, 123);
}

#[test]
fn test_git_branch_result_success_worktree() {
    let request = GitBranchRequest {
        branch_name: "feature/test".to_string(),
        worktree_path: "../feature-test".to_string(),
        operation: GitOperation::CreateWorktree,
        story_id: 123,
    };
    let result = GitBranchResult::success("Success!".to_string(), &request);
    assert!(result.success);
    assert_eq!(result.worktree_path, Some("../feature-test".to_string()));
}

#[test]
fn test_git_branch_result_failure() {
    let request = GitBranchRequest {
        branch_name: "feature/test".to_string(),
        worktree_path: "../feature-test".to_string(),
        operation: GitOperation::CreateBranch,
        story_id: 123,
    };
    let result = GitBranchResult::failure("Error!".to_string(), &request);
    assert!(!result.success);
    assert!(result.worktree_path.is_none());
}

#[test]
fn test_default_operation_for_normal_repo() {
    let context = GitContext { repo_type: GitRepoType::Normal, current_branch: Some("main".to_string()) };
    assert_eq!(default_operation_for_context(&context), GitOperation::CreateBranch);
}

#[test]
fn test_default_operation_for_bare_repo() {
    let context = GitContext { repo_type: GitRepoType::Bare, current_branch: None };
    assert_eq!(default_operation_for_context(&context), GitOperation::CreateWorktree);
}

#[test]
fn test_is_git_available_normal_repo() {
    let context = GitContext { repo_type: GitRepoType::Normal, current_branch: Some("main".to_string()) };
    assert!(is_git_available(&context));
}

#[test]
fn test_is_git_available_bare_repo() {
    let context = GitContext { repo_type: GitRepoType::Bare, current_branch: None };
    assert!(is_git_available(&context));
}

#[test]
fn test_is_git_available_not_a_repo() {
    let context = GitContext { repo_type: GitRepoType::NotARepo, current_branch: None };
    assert!(!is_git_available(&context));
}

#[test]
fn test_find_in_progress_state_id_by_started_type() {
    let workflows = create_test_workflows();
    assert_eq!(find_in_progress_state_id(&workflows), Some(101));
}

#[test]
fn test_find_in_progress_state_id_by_progress_name() {
    let workflows = vec![Workflow {
        id: 1,
        name: "Development".to_string(),
        states: vec![state(100, "Backlog", 0, "unstarted"), state(101, "Work In Progress", 1, "active")],
    }];
    assert_eq!(find_in_progress_state_id(&workflows), Some(101));
}

#[test]
fn test_find_in_progress_state_id_by_doing_name() {
    let workflows = vec![Workflow {
        id: 1,
        name: "Development".to_string(),
        states: vec![state(100, "Backlog", 0, "unstarted"), state(101, "Doing", 1, "active")],
    }];
    assert_eq!(find_in_progress_state_id(&workflows), Some(101));
}

#[test]
fn test_find_in_progress_state_id_not_found() {
    let workflows = vec![Workflow {
        id: 1,
        name: "Development".to_string(),
        states: vec![state(100, "Backlog", 0, "unstarted"), state(102, "Done", 2, "done")],
    }];
    assert_eq!(find_in_progress_state_id(&workflows), None);
}

#[test]
fn test_find_in_progress_state_id_empty_workflows() {
    let workflows: Vec<Workflow> = vec![];
    assert_eq!(find_in_progress_state_id(&workflows), None);
}

#[test]
fn test_move_story_to_in_progress_success() {
    let client = MockShortcutApi::new_success();
    let workflows = create_test_workflows();
    let result = move_story_to_in_progress(&client, 123, &workflows, false);
    assert!(result.is_some());
    assert_eq!(result.unwrap().id, 123);
}

#[test]
fn test_move_story_to_in_progress_invalid_story_id_zero() {
    let client = MockShortcutApi::new_success();
    let workflows = create_test_workflows();
    assert!(move_story_to_in_progress(&client, 0, &workflows, false).is_none());
}

#[test]
fn test_move_story_to_in_progress_invalid_story_id_negative() {
    let client = MockShortcutApi::new_success();
    let workflows = create_test_workflows();
    assert!(move_story_to_in_progress(&client, -1, &workflows, false).is_none());
}

#[test]
fn test_move_story_to_in_progress_no_target_state() {
    let client = MockShortcutApi::new_success();
    let workflows: Vec<Workflow> = vec![];
    assert!(move_story_to_in_progress(&client, 123, &workflows, false).is_none());
}

#[test]
fn test_move_story_to_in_progress_api_error() {
    let client = MockShortcutApi::new_failure();
    let workflows = create_test_workflows();
    assert!(move_story_to_in_progress(&client, 123, &workflows, false).is_none());
}

#[test]
fn test_git_context_detect_and_queries() {
    let ctx = GitContext::detect(GitRepoType::Bare, Some("main".to_string()));
    assert!(ctx.is_git_repo());
    assert!(ctx.is_bare_repo());
    let none = GitContext::detect(GitRepoType::NotARepo, Some("main".to_string()));
    assert!(!none.is_git_repo());
    assert_eq!(none.current_branch, None);
}

#[test]
fn in_progress_request_names_the_story_and_the_first_started_state() {
    let workflows = create_test_workflows();
    assert_eq!(in_progress_request(42, &workflows), Some((42, 101)));
    assert_eq!(in_progress_request(0, &workflows), None);
    assert_eq!(in_progress_request(-3, &workflows), None);
    let none_started = vec![Workflow {
        id: 1,
        name: "Development".to_string(),
        states: vec![state(100, "Backlog", 0, "unstarted")],
    }];
    assert_eq!(in_progress_request(42, &none_started), None);
}

#[test]
fn a_created_worktree_reports_the_requested_path() {
    let request = GitBranchRequest {
        branch_name: "sc-5-fix".to_string(),
        worktree_path: "../repo-sc-5-fix".to_string(),
        operation: GitOperation::CreateWorktree,
        story_id: 5,
    };
    match begin_git_operation(&request) {
        GitStep::Run(GitCommand::CreateWorktree { branch_name, worktree_path }) => {
            assert_eq!(branch_name, "sc-5-fix");
            assert_eq!(worktree_path, "../repo-sc-5-fix");
        }
        _ => panic!("a worktree is created at once"),
    }
    match git_operation_step(&request, GitEvent::WorktreeCreated(Ok(()))) {
        GitStep::Finished(r) => {
            assert!(r.success);
            assert_eq!(r.worktree_path, Some("../repo-sc-5-fix".to_string()));
            assert_eq!(r.message, "Successfully created worktree 'sc-5-fix' at '../repo-sc-5-fix'");
        }
        _ => panic!("the creation ends the operation"),
    }
    match git_operation_step(&request, GitEvent::WorktreeCreated(Err("exists".to_string()))) {
        GitStep::Finished(r) => {
            assert!(!r.success);
            assert_eq!(r.worktree_path, None);
            assert_eq!(r.message, "Failed to create worktree: exists");
        }
        _ => panic!("the failure ends the operation"),
    }
}

#[test]
fn a_created_branch_reports_no_path() {
    let request = GitBranchRequest {
        branch_name: "sc-5-fix".to_string(),
        worktree_path: "../repo-sc-5-fix".to_string(),
        operation: GitOperation::CreateBranch,
        story_id: 5,
    };
    match git_operation_step(&request, GitEvent::BranchCreated(Ok(()))) {
        GitStep::Finished(r) => {
            assert!(r.success);
            assert_eq!(r.worktree_path, None);
        }
        _ => panic!("the creation ends the operation"),
    }
}

#[test]
fn the_branch_command_makes_a_worktree_when_asked_or_in_a_bare_repository() {
    let normal = GitContext { repo_type: GitRepoType::Normal, current_branch: None };
    let bare = GitContext { repo_type: GitRepoType::Bare, current_branch: None };
    let r = branch_command_request("sc-5-fix".to_string(), 5, false, &normal);
    assert_eq!(r.operation, GitOperation::CreateBranch);
    assert_eq!(r.worktree_path, "../sc-5-fix");
    assert_eq!(r.story_id, 5);
    assert_eq!(branch_command_request("b".to_string(), 5, true, &normal).operation, GitOperation::CreateWorktree);
    assert_eq!(branch_command_request("b".to_string(), 5, false, &bare).operation, GitOperation::CreateWorktree);
}

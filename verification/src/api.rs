//! The story tracker's data model and the service interface the rest of the
//! library is written against.
use vstd::prelude::*;

verus! {

/// A label attached to a story.
#[derive(Debug)]
pub struct Label {
    pub id: i64,
    pub name: String,
    pub color: String,
}

/// A comment on a story.
#[derive(Debug)]
pub struct Comment {
    pub id: i64,
    pub text: String,
    pub author_id: String,
    pub created_at: String,
    pub updated_at: String,
}

/// A git branch linked to a story.
#[derive(Debug)]
pub struct Branch {
    pub name: String,
    pub url: String,
}

/// A pull request linked to a story.
#[derive(Debug)]
pub struct PullRequest {
    pub title: String,
    pub url: String,
    pub merged: bool,
    pub closed: bool,
    pub draft: bool,
}

/// A commit linked to a story.
#[derive(Debug)]
pub struct Commit {
    pub hash: String,
    pub message: String,
    pub url: String,
}

/// A story as the service reports it.
#[derive(Debug)]
pub struct Story {
    pub id: i64,
    pub name: String,
    pub description: String,
    pub workflow_state_id: i64,
    pub app_url: String,
    pub story_type: String,
    pub labels: Vec<Label>,
    pub owner_ids: Vec<String>,
    pub position: i64,
    pub created_at: String,
    pub updated_at: String,
    pub completed_at: Option<String>,
    pub moved_at: Option<String>,
    pub comments: Vec<Comment>,
    pub formatted_vcs_branch_name: Option<String>,
    pub epic_id: Option<i64>,
    pub branches: Vec<Branch>,
    pub pull_requests: Vec<PullRequest>,
    pub commits: Vec<Commit>,
}

/// A workflow and its states.
#[derive(Debug)]
pub struct Workflow {
    pub id: i64,
    pub name: String,
    pub states: Vec<WorkflowState>,
}

/// One state (column) of a workflow.
#[derive(Debug)]
pub struct WorkflowState {
    pub id: i64,
    pub name: String,
    pub color: String,
    pub position: i64,
    pub state_type: String,
}

/// The `stories` part of a search reply.
#[derive(Debug)]
pub struct StoriesData {
    pub data: Vec<Story>,
    pub next: Option<String>,
    pub total: Option<i64>,
}

/// A search reply.
#[derive(Debug)]
pub struct SearchResponse {
    pub stories: StoriesData,
    pub next: Option<String>,
}

/// One page of search results.
#[derive(Debug)]
pub struct SearchStoriesResult {
    pub stories: Vec<Story>,
    pub next_page_token: Option<String>,
    pub total: Option<i64>,
}

/// A workspace member.
#[derive(Debug)]
pub struct Member {
    pub id: String,
    pub profile: MemberProfile,
}

/// A member's profile.
#[derive(Debug)]
pub struct MemberProfile {
    pub name: String,
    pub mention_name: String,
}

/// The member that owns the token in use.
#[derive(Debug)]
pub struct CurrentMember {
    pub id: String,
    pub name: String,
    pub mention_name: String,
}

/// An epic.
#[derive(Debug)]
pub struct Epic {
    pub id: i64,
    pub name: String,
    pub description: String,
    pub app_url: String,
    pub state: String,
    pub owner_ids: Vec<String>,
    pub created_at: String,
    pub updated_at: String,
}

/// An error with the chain of contexts it was raised through: `message` is
/// the outermost description, `causes` the inner ones, outermost first.
#[derive(Debug)]
pub struct Error {
    pub message: String,
    pub causes: Vec<String>,
}

/// The value of a story, with its lists taken as sequences.
pub struct StoryView {
    pub id: i64,
    pub name: String,
    pub description: String,
    pub workflow_state_id: i64,
    pub app_url: String,
    pub story_type: String,
    pub labels: Seq<Label>,
    pub owner_ids: Seq<String>,
    pub position: i64,
    pub created_at: String,
    pub updated_at: String,
    pub completed_at: Option<String>,
    pub moved_at: Option<String>,
    pub comments: Seq<Comment>,
    pub formatted_vcs_branch_name: Option<String>,
    pub epic_id: Option<i64>,
    pub branches: Seq<Branch>,
    pub pull_requests: Seq<PullRequest>,
    pub commits: Seq<Commit>,
}

impl View for Story {
    type V = StoryView;

    open spec fn view(&self) -> StoryView {
        StoryView {
            id: self.id,
            name: self.name,
            description: self.description,
            workflow_state_id: self.workflow_state_id,
            app_url: self.app_url,
            story_type: self.story_type,
            labels: self.labels@,
            owner_ids: self.owner_ids@,
            position: self.position,
            created_at: self.created_at,
            updated_at: self.updated_at,
            completed_at: self.completed_at,
            moved_at: self.moved_at,
            comments: self.comments@,
            formatted_vcs_branch_name: self.formatted_vcs_branch_name,
            epic_id: self.epic_id,
            branches: self.branches@,
            pull_requests: self.pull_requests@,
            commits: self.commits@,
        }
    }
}

impl DeepView for Story {
    type V = StoryView;

    open spec fn deep_view(&self) -> StoryView {
        self@
    }
}

/// The value of a workflow, with its states taken as a sequence.
pub struct WorkflowView {
    pub id: i64,
    pub name: String,
    pub states: Seq<WorkflowState>,
}

impl View for Workflow {
    type V = WorkflowView;

    open spec fn view(&self) -> WorkflowView {
        WorkflowView { id: self.id, name: self.name, states: self.states@ }
    }
}

impl DeepView for Workflow {
    type V = WorkflowView;

    open spec fn deep_view(&self) -> WorkflowView {
        self@
    }
}

/// The value of an epic, with its owners taken as a sequence.
pub struct EpicView {
    pub id: i64,
    pub name: String,
    pub description: String,
    pub app_url: String,
    pub state: String,
    pub owner_ids: Seq<String>,
    pub created_at: String,
    pub updated_at: String,
}

impl View for Epic {
    type V = EpicView;

    open spec fn view(&self) -> EpicView {
        EpicView {
            id: self.id,
            name: self.name,
            description: self.description,
            app_url: self.app_url,
            state: self.state,
            owner_ids: self.owner_ids@,
            created_at: self.created_at,
            updated_at: self.updated_at,
        }
    }
}

impl DeepView for Epic {
    type V = EpicView;

    open spec fn deep_view(&self) -> EpicView {
        self@
    }
}

/// The value of an error: its message and its causes as a sequence.
pub struct ErrorView {
    pub message: String,
    pub causes: Seq<String>,
}

impl View for Error {
    type V = ErrorView;

    open spec fn view(&self) -> ErrorView {
        ErrorView { message: self.message, causes: self.causes@ }
    }
}

fn copy_string_option(o: &Option<String>) -> (r: Option<String>)
    ensures
        r == *o,
{
    match o {
        Some(s) => Some(s.clone()),
        None => None,
    }
}

/// Copies a vector of strings exactly.
pub fn copy_strings(v: &Vec<String>) -> (r: Vec<String>)
    ensures
        r@ == v@,
{
    let r = v.clone();
    assert(r@ =~= v@);
    r
}

impl Clone for Label {
    fn clone(&self) -> (r: Self)
        ensures
            r == *self,
    {
        Label { id: self.id, name: self.name.clone(), color: self.color.clone() }
    }
}

impl Clone for Comment {
    fn clone(&self) -> (r: Self)
        ensures
            r == *self,
    {
        Comment {
            id: self.id,
            text: self.text.clone(),
            author_id: self.author_id.clone(),
            created_at: self.created_at.clone(),
            updated_at: self.updated_at.clone(),
        }
    }
}

impl Clone for Branch {
    fn clone(&self) -> (r: Self)
        ensures
            r == *self,
    {
        Branch { name: self.name.clone(), url: self.url.clone() }
    }
}

impl Clone for PullRequest {
    fn clone(&self) -> (r: Self)
        ensures
            r == *self,
    {
        PullRequest {
            title: self.title.clone(),
            url: self.url.clone(),
            merged: self.merged,
            closed: self.closed,
            draft: self.draft,
        }
    }
}

impl Clone for Commit {
    fn clone(&self) -> (r: Self)
        ensures
            r == *self,
    {
        Commit { hash: self.hash.clone(), message: self.message.clone(), url: self.url.clone() }
    }
}

impl Clone for Story {
    fn clone(&self) -> (r: Self)
        ensures
            r@ == self@,
    {
        let labels = self.labels.clone();
        assert(labels@ =~= self.labels@);
        let comments = self.comments.clone();
        assert(comments@ =~= self.comments@);
        let branches = self.branches.clone();
        assert(branches@ =~= self.branches@);
        let pull_requests = self.pull_requests.clone();
        assert(pull_requests@ =~= self.pull_requests@);
        let commits = self.commits.clone();
        assert(commits@ =~= self.commits@);
        Story {
            id: self.id,
            name: self.name.clone(),
            description: self.description.clone(),
            workflow_state_id: self.workflow_state_id,
            app_url: self.app_url.clone(),
            story_type: self.story_type.clone(),
            labels,
            owner_ids: copy_strings(&self.owner_ids),
            position: self.position,
            created_at: self.created_at.clone(),
            updated_at: self.updated_at.clone(),
            completed_at: copy_string_option(&self.completed_at),
            moved_at: copy_string_option(&self.moved_at),
            comments,
            formatted_vcs_branch_name: copy_string_option(&self.formatted_vcs_branch_name),
            epic_id: self.epic_id,
            branches,
            pull_requests,
            commits,
        }
    }
}

impl Clone for WorkflowState {
    fn clone(&self) -> (r: Self)
        ensures
            r == *self,
    {
        WorkflowState {
            id: self.id,
            name: self.name.clone(),
            color: self.color.clone(),
            position: self.position,
            state_type: self.state_type.clone(),
        }
    }
}

impl Clone for Workflow {
    fn clone(&self) -> (r: Self)
        ensures
            r@ == self@,
    {
        let states = self.states.clone();
        assert(states@ =~= self.states@);
        Workflow { id: self.id, name: self.name.clone(), states }
    }
}

impl Clone for Epic {
    fn clone(&self) -> (r: Self)
        ensures
            r@ == self@,
    {
        Epic {
            id: self.id,
            name: self.name.clone(),
            description: self.description.clone(),
            app_url: self.app_url.clone(),
            state: self.state.clone(),
            owner_ids: copy_strings(&self.owner_ids),
            created_at: self.created_at.clone(),
            updated_at: self.updated_at.clone(),
        }
    }
}

impl Clone for Error {
    fn clone(&self) -> (r: Self)
        ensures
            r@ == self@,
    {
        Error { message: self.message.clone(), causes: copy_strings(&self.causes) }
    }
}

/// Copies a vector of stories exactly.
pub fn copy_stories(v: &Vec<Story>) -> (r: Vec<Story>)
    ensures
        r.deep_view() == v.deep_view(),
{
    let r = v.clone();
    assert(r.deep_view() =~= v.deep_view());
    r
}

/// Copies a vector of workflows exactly.
pub fn copy_workflows(v: &Vec<Workflow>) -> (r: Vec<Workflow>)
    ensures
        r.deep_view() == v.deep_view(),
{
    let r = v.clone();
    assert(r.deep_view() =~= v.deep_view());
    r
}

/// Copies a vector of epics exactly.
pub fn copy_epics(v: &Vec<Epic>) -> (r: Vec<Epic>)
    ensures
        r.deep_view() == v.deep_view(),
{
    let r = v.clone();
    assert(r.deep_view() =~= v.deep_view());
    r
}

impl Error {
    /// An error with a single message and no inner causes.
    pub fn new(message: &str) -> (r: Error)
        ensures
            r.message@ == message@,
            r.causes@ == Seq::<String>::empty(),
    {
        Error { message: String::from_str(message), causes: Vec::new() }
    }

    /// Wraps the error in an outer description, as a context does: the old
    /// message becomes the first cause.
    pub fn context(self, description: &str) -> (r: Error)
        ensures
            r.message@ == description@,
            r.causes@ == seq![self.message] + self.causes@,
    {
        let mut causes: Vec<String> = Vec::new();
        causes.push(self.message);
        let mut i: usize = 0;
        while i < self.causes.len()
            invariant
                i <= self.causes@.len(),
                causes@ == seq![self.message] + self.causes@.subrange(0, i as int),
            decreases self.causes@.len() - i,
        {
            causes.push(self.causes[i].clone());
            assert(self.causes@.subrange(0, i + 1) =~= self.causes@.subrange(0, i as int).push(self.causes@[i as int]));
            i = i + 1;
        }
        assert(self.causes@.subrange(0, self.causes@.len() as int) =~= self.causes@);
        Error { message: String::from_str(description), causes }
    }

    /// The outermost description, as the error displays.
    pub fn to_string(&self) -> (r: String)
        ensures
            r@ == self.message@,
    {
        self.message.clone()
    }
}

/// The story tracker's operations. Every reply comes from an outside
/// service, so nothing is promised of it here; the functions that call these
/// methods state what they do with whatever comes back.
pub trait ShortcutApi {
    fn search_stories(&self, query: &str, limit: Option<usize>) -> Result<Vec<Story>, Error>;

    fn search_stories_page(&self, query: &str, next_token: Option<String>) -> Result<
        SearchStoriesResult,
        Error,
    >;

    fn get_workflows(&self) -> Result<Vec<Workflow>, Error>;

    fn get_story(&self, story_id: i64) -> Result<Story, Error>;

    fn update_story_state(&self, story_id: i64, workflow_state_id: i64) -> Result<Story, Error>;

    fn get_current_member(&self) -> Result<CurrentMember, Error>;

    fn update_story(&self, story_id: i64, owner_ids: Vec<String>) -> Result<Story, Error>;

    fn update_story_details(
        &self,
        story_id: i64,
        name: String,
        description: String,
        story_type: String,
        epic_id: Option<i64>,
    ) -> Result<Story, Error>;

    fn get_members(&self) -> Result<Vec<Member>, Error>;

    fn create_story(
        &self,
        name: String,
        description: String,
        story_type: String,
        requested_by_id: String,
        workflow_state_id: i64,
        epic_id: Option<i64>,
    ) -> Result<Story, Error>;

    fn get_epics(&self) -> Result<Vec<Epic>, Error>;

    fn create_epic(&self, name: String, description: String) -> Result<Epic, Error>;

    fn add_comment(&self, story_id: i64, text: &str) -> Result<(), Error>;
}

} // verus!

//! The states of the interface's popups.
use crate::api::{Story, StoryView};
use crate::git::worktree_path_of;
use crate::story_editor::story_type_index;
use crate::ui::textarea::{
    empty_lines, split_lines, textarea_lines, textarea_new, textarea_with, TextEditor,
};
use vstd::prelude::*;

verus! {

/// The fields of the story creation popup, in the order Tab visits them.
#[derive(Clone, Copy, Debug, PartialEq, Eq, Structural)]
pub enum CreateField {
    Name,
    Description,
    Type,
    Epic,
}

/// The fields of the story editing popup, in the order Tab visits them.
#[derive(Clone, Copy, Debug, PartialEq, Eq, Structural)]
pub enum EditField {
    Name,
    Description,
    Type,
    Epic,
}

/// The fields of the epic creation popup.
#[derive(Clone, Copy, Debug, PartialEq, Eq, Structural)]
pub enum CreateEpicField {
    Name,
    Description,
}

/// The choices of the git branch popup.
#[derive(Clone, Copy, Debug, PartialEq, Eq, Structural)]
pub enum GitBranchOption {
    CreateBranch,
    CreateWorktree,
    Cancel,
}

/// Which git operation a result reports on.
#[derive(Clone, Copy, Debug, PartialEq, Eq, Structural)]
pub enum GitOperationType {
    CreateBranch,
    CreateWorktree,
}

/// The choices of the git result popup.
#[derive(Clone, Copy, Debug, PartialEq, Eq, Structural)]
pub enum GitResultOption {
    Continue,
    ExitAndChange,
}

/// A rectangle of the screen, in cells.
#[derive(Clone, Copy, Debug, PartialEq, Eq, Structural)]
pub struct Area {
    pub x: u16,
    pub y: u16,
    pub width: u16,
    pub height: u16,
}

/// A link shown in the detail popup: its row there and the columns it spans.
pub struct ClickableUrl {
    pub url: String,
    pub row: u16,
    pub start_col: u16,
    pub end_col: u16,
}

/// The story creation popup.
pub struct CreatePopupState {
    pub name_textarea: TextEditor,
    pub description_textarea: TextEditor,
    pub story_type: String,
    pub selected_field: CreateField,
    pub story_type_index: usize,
    pub epic_id: Option<i64>,
    /// 0 for no epic, `k` for the k-th epic.
    pub epic_selector_index: usize,
}

impl CreatePopupState {
    /// An empty form: no text, type "feature", no epic, on the name field.
    pub open spec fn is_fresh(&self) -> bool {
        &&& textarea_lines(self.name_textarea) == empty_lines()
        &&& textarea_lines(self.description_textarea) == empty_lines()
        &&& self.story_type@ == "feature"@
        &&& self.selected_field == CreateField::Name
        &&& self.story_type_index == 0
        &&& self.epic_id.is_none()
        &&& self.epic_selector_index == 0
    }
}

impl Default for CreatePopupState {
    fn default() -> (r: Self)
        ensures
            r.is_fresh(),
    {
        CreatePopupState {
            name_textarea: textarea_new(),
            description_textarea: textarea_new(),
            story_type: String::from_str("feature"),
            selected_field: CreateField::Name,
            story_type_index: 0,
            epic_id: None,
            epic_selector_index: 0,
        }
    }
}

/// The story editing popup.
pub struct EditPopupState {
    pub name_textarea: TextEditor,
    pub description_textarea: TextEditor,
    pub story_type: String,
    pub selected_field: EditField,
    pub story_type_index: usize,
    pub story_id: i64,
    pub epic_id: Option<i64>,
    /// 0 for no epic, `k` for the k-th epic.
    pub epic_selector_index: usize,
}

impl EditPopupState {
    /// The form filled in from a story, on the name field, with the epic
    /// choice at "no epic".
    pub open spec fn shows_story(&self, s: StoryView) -> bool {
        self.shows_story_with(s, 0)
    }

    /// The form filled in from a story, on the name field, with the epic
    /// choice at `epic_index`.
    #[verifier::opaque]
    pub open spec fn shows_story_with(&self, s: StoryView, epic_index: usize) -> bool {
        &&& textarea_lines(self.name_textarea) == split_lines(s.name@)
        &&& textarea_lines(self.description_textarea) == split_lines(s.description@)
        &&& self.story_type == s.story_type
        &&& self.selected_field == EditField::Name
        &&& self.story_type_index == story_type_index(s.story_type@)
        &&& self.story_id == s.id
        &&& self.epic_id == s.epic_id
        &&& self.epic_selector_index == epic_index
    }

    /// An empty form for no story.
    pub open spec fn is_fresh(&self) -> bool {
        &&& textarea_lines(self.name_textarea) == empty_lines()
        &&& textarea_lines(self.description_textarea) == empty_lines()
        &&& self.story_type@ == "feature"@
        &&& self.selected_field == EditField::Name
        &&& self.story_type_index == 0
        &&& self.story_id == 0
        &&& self.epic_id.is_none()
        &&& self.epic_selector_index == 0
    }

    /// The form filled in from a story.
    pub fn from_story(story: &Story) -> (r: Self)
        ensures
            r.shows_story(story@),
    {
        proof {
            reveal(EditPopupState::shows_story_with);
        }
        EditPopupState {
            name_textarea: textarea_with(story.name.as_str()),
            description_textarea: textarea_with(story.description.as_str()),
            story_type: story.story_type.clone(),
            selected_field: EditField::Name,
            story_type_index: crate::story_editor::story_type_position(story.story_type.as_str()),
            story_id: story.id,
            epic_id: story.epic_id,
            epic_selector_index: 0,
        }
    }

    /// An empty form for no story.
    pub fn blank() -> (r: Self)
        ensures
            r.is_fresh(),
    {
        EditPopupState {
            name_textarea: textarea_new(),
            description_textarea: textarea_new(),
            story_type: String::from_str("feature"),
            selected_field: EditField::Name,
            story_type_index: 0,
            story_id: 0,
            epic_id: None,
            epic_selector_index: 0,
        }
    }
}

/// The epic creation popup.
pub struct CreateEpicPopupState {
    pub name_textarea: TextEditor,
    pub description_textarea: TextEditor,
    pub selected_field: CreateEpicField,
}

impl CreateEpicPopupState {
    /// An empty form on the name field.
    pub open spec fn is_fresh(&self) -> bool {
        &&& textarea_lines(self.name_textarea) == empty_lines()
        &&& textarea_lines(self.description_textarea) == empty_lines()
        &&& self.selected_field == CreateEpicField::Name
    }

    /// An empty form on the name field.
    pub fn blank() -> (r: Self)
        ensures
            r.is_fresh(),
    {
        CreateEpicPopupState {
            name_textarea: textarea_new(),
            description_textarea: textarea_new(),
            selected_field: CreateEpicField::Name,
        }
    }
}

/// The git branch popup.
pub struct GitBranchPopupState {
    pub branch_name_textarea: TextEditor,
    pub worktree_path_textarea: TextEditor,
    pub selected_option: GitBranchOption,
    pub story_id: i64,
    pub editing_branch_name: bool,
    pub editing_worktree_path: bool,
}

impl GitBranchPopupState {
    /// An empty popup for no story, on "create branch".
    pub open spec fn is_fresh(&self) -> bool {
        &&& textarea_lines(self.branch_name_textarea) == empty_lines()
        &&& textarea_lines(self.worktree_path_textarea) == empty_lines()
        &&& self.selected_option == GitBranchOption::CreateBranch
        &&& self.story_id == 0
        &&& !self.editing_branch_name
        &&& !self.editing_worktree_path
    }

    /// The popup offering a branch for a story: the branch name, the
    /// worktree path made from it, and "create worktree" preselected in a
    /// bare repository, "create branch" elsewhere.
    #[verifier::opaque]
    pub open spec fn offers(&self, branch: Seq<char>, story_id: i64, bare: bool) -> bool {
        &&& textarea_lines(self.branch_name_textarea) == split_lines(branch)
        &&& textarea_lines(self.worktree_path_textarea) == split_lines(worktree_path_of(branch))
        &&& self.selected_option == (if bare {
            GitBranchOption::CreateWorktree
        } else {
            GitBranchOption::CreateBranch
        })
        &&& self.story_id == story_id
        &&& !self.editing_branch_name
        &&& !self.editing_worktree_path
    }

    /// An empty popup for no story.
    pub fn blank() -> (r: Self)
        ensures
            r.is_fresh(),
    {
        GitBranchPopupState {
            branch_name_textarea: textarea_new(),
            worktree_path_textarea: textarea_new(),
            selected_option: GitBranchOption::CreateBranch,
            story_id: 0,
            editing_branch_name: false,
            editing_worktree_path: false,
        }
    }

    /// The popup offering `branch` for a story.
    pub fn offering(branch: &str, story_id: i64, bare: bool) -> (r: Self)
        ensures
            r.offers(branch@, story_id, bare),
    {
        proof {
            reveal(GitBranchPopupState::offers);
        }
        let path = crate::git::generate_worktree_path(branch);
        GitBranchPopupState {
            branch_name_textarea: textarea_with(branch),
            worktree_path_textarea: textarea_with(path.as_str()),
            selected_option: if bare {
                GitBranchOption::CreateWorktree
            } else {
                GitBranchOption::CreateBranch
            },
            story_id,
            editing_branch_name: false,
            editing_worktree_path: false,
        }
    }
}

/// The popup reporting a git operation's outcome.
pub struct GitResultState {
    pub success: bool,
    pub operation_type: GitOperationType,
    pub message: String,
    pub branch_name: String,
    pub worktree_path: Option<String>,
    pub story_id: i64,
    pub selected_option: GitResultOption,
}

impl GitResultState {
    /// The report before any operation ran.
    pub open spec fn is_fresh(&self) -> bool {
        &&& !self.success
        &&& self.operation_type == GitOperationType::CreateBranch
        &&& self.message@ == Seq::<char>::empty()
        &&& self.branch_name@ == Seq::<char>::empty()
        &&& self.worktree_path.is_none()
        &&& self.story_id == 0
        &&& self.selected_option == GitResultOption::Continue
    }

    /// The report before any operation ran.
    pub fn blank() -> (r: Self)
        ensures
            r.is_fresh(),
    {
        GitResultState {
            success: false,
            operation_type: GitOperationType::CreateBranch,
            message: String::new(),
            branch_name: String::new(),
            worktree_path: None,
            story_id: 0,
            selected_option: GitResultOption::Continue,
        }
    }
}

/// The comment popup: the comment being written and the story it is for.
pub struct CommentPopupState {
    pub comment_textarea: TextEditor,
    pub story_id: i64,
}

impl CommentPopupState {
    /// An empty comment for a story.
    pub open spec fn is_fresh_for(&self, story_id: i64) -> bool {
        &&& textarea_lines(self.comment_textarea) == empty_lines()
        &&& self.story_id == story_id
    }

    /// An empty comment for a story.
    pub fn for_story(story_id: i64) -> (r: Self)
        ensures
            r.is_fresh_for(story_id),
    {
        CommentPopupState { comment_textarea: textarea_new(), story_id }
    }
}

} // verus!

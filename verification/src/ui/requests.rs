//! What the interface asks of the service and of git once a popup was
//! submitted, and what it does with the replies.
use crate::api::{Epic, Story, StoryView};
use crate::git::operations::{GitBranchRequest, GitBranchResult, GitOperation};
use crate::text::{is_blank, join, join_strings, trim, views};
use crate::timekeeping::unix_now;
use crate::ui::app::App;
use crate::ui::board::{add_story, sort_by_position, sort_one_group, sort_stories_by_position};
use crate::ui::popups::{
    CommentPopupState, CreateEpicPopupState, CreatePopupState, EditPopupState, GitBranchOption, GitBranchPopupState,
    GitOperationType, GitResultOption, GitResultState,
};
use crate::ui::textarea::{textarea_lines, textarea_text, TextEditor};
use vstd::prelude::*;

verus! {

/// The text of an editor: its lines joined with `sep`.
pub open spec fn editor_text(t: TextEditor, sep: Seq<char>) -> Seq<char> {
    join(textarea_lines(t), sep)
}

/// The lines of an editor joined with a separator.
fn text_of(t: &TextEditor, sep: &str) -> (r: String)
    ensures
        r@ == editor_text(*t, sep@),
{
    let lines = textarea_text(t);
    proof {
        assert(views(lines@) =~= textarea_lines(*t));
    }
    join_strings(&lines, sep)
}

/// Whether a new story is shown under an epic filter.
pub open spec fn passes_filter(filter: Option<i64>, x: StoryView) -> bool {
    match filter {
        None => true,
        Some(e) => x.epic_id == Some(e),
    }
}

/// The interface after a created story was taken in (see
/// `App::add_created_story`).
#[verifier::opaque]
pub open spec fn created_story_added(a: App, b: App, x: StoryView, first_state_id: i64) -> bool {
    &&& b.all_stories_unfiltered.deep_view() == a.all_stories_unfiltered.deep_view().push(x)
    &&& if passes_filter(a.selected_epic_filter, x) {
        &&& b.stories_by_state@ == sort_one_group(add_story(a.stories_by_state@, x), first_state_id)
        &&& b.all_stories_list.deep_view() == sort_by_position(a.all_stories_list.deep_view().push(x))
    } else {
        &&& b.stories_by_state == a.stories_by_state
        &&& b.all_stories_list == a.all_stories_list
    }
    &&& b == (App {
        all_stories_unfiltered: b.all_stories_unfiltered,
        stories_by_state: b.stories_by_state,
        all_stories_list: b.all_stories_list,
        ..a
    })
}

/// The popup state reporting a git operation's outcome; the choice starts
/// on "exit and change" after a worktree was made, on "continue" otherwise.
pub open spec fn reports(r: GitResultState, result: GitBranchResult) -> bool {
    &&& r.success == result.success
    &&& r.operation_type == (match result.operation {
        GitOperation::CreateBranch => GitOperationType::CreateBranch,
        GitOperation::CreateWorktree => GitOperationType::CreateWorktree,
    })
    &&& r.message == result.message
    &&& r.branch_name == result.branch_name
    &&& r.worktree_path == result.worktree_path
    &&& r.story_id == result.story_id
    &&& r.selected_option == (if result.worktree_path is Some && result.success {
        GitResultOption::ExitAndChange
    } else {
        GitResultOption::Continue
    })
}

impl GitResultState {
    /// The report of a git operation's outcome (see `reports`).
    pub fn from_result(result: GitBranchResult) -> (r: GitResultState)
        ensures
            reports(r, result),
    {
        let selected_option = if result.worktree_path.is_some() && result.success {
            GitResultOption::ExitAndChange
        } else {
            GitResultOption::Continue
        };
        let operation_type = match result.operation {
            GitOperation::CreateBranch => GitOperationType::CreateBranch,
            GitOperation::CreateWorktree => GitOperationType::CreateWorktree,
        };
        GitResultState {
            success: result.success,
            operation_type,
            message: result.message,
            branch_name: result.branch_name,
            worktree_path: result.worktree_path,
            story_id: result.story_id,
            selected_option,
        }
    }
}

impl App {
    /// The move the state selector asks for on Enter: the selected story's
    /// id and the chosen target state, when there are both.
    pub fn state_change(&self) -> (r: Option<(i64, i64)>)
        requires
            self.wf(),
        ensures
            r == (match self.selected_story() {
                Some(s) => if self.state_selector_index < self.target_states().len() {
                    Some((s.id, self.target_states()[self.state_selector_index as int].0))
                } else {
                    None
                },
                None => None,
            }),
    {
        let id = match self.get_selected_story() {
            Some(story) => story.id,
            None => return None,
        };
        match self.get_selected_target_state() {
            Some(target) => Some((id, target)),
            None => None,
        }
    }

    /// The story the creation popup asks for: its name and description as
    /// typed (lines joined with nothing between them), its type and its
    /// epic; nothing when the name is blank.
    pub fn create_story_request(&self) -> (r: Option<(String, String, String, Option<i64>)>)
        ensures
            match r {
                Some(q) => {
                    &&& trim(editor_text(self.create_popup_state.name_textarea, Seq::empty())).len() > 0
                    &&& q.0@ == editor_text(self.create_popup_state.name_textarea, Seq::empty())
                    &&& q.1@ == editor_text(self.create_popup_state.description_textarea, Seq::empty())
                    &&& q.2 == self.create_popup_state.story_type
                    &&& q.3 == self.create_popup_state.epic_id
                },
                None => trim(editor_text(self.create_popup_state.name_textarea, Seq::empty())).len() == 0,
            },
    {
        proof {
            reveal_strlit("");
            assert(""@ =~= Seq::<char>::empty());
        }
        let name = text_of(&self.create_popup_state.name_textarea, "");
        if is_blank(name.as_str()) {
            return None;
        }
        let description = text_of(&self.create_popup_state.description_textarea, "");
        Some((name, description, self.create_popup_state.story_type.clone(), self.create_popup_state.epic_id))
    }

    /// The update the editing popup asks for: the story id, the name and
    /// description as typed (lines joined with nothing between them), the
    /// type and the epic; nothing when the name is blank.
    pub fn edit_story_request(&self) -> (r: Option<(i64, String, String, String, Option<i64>)>)
        ensures
            match r {
                Some(q) => {
                    &&& trim(editor_text(self.edit_popup_state.name_textarea, Seq::empty())).len() > 0
                    &&& q.0 == self.edit_popup_state.story_id
                    &&& q.1@ == editor_text(self.edit_popup_state.name_textarea, Seq::empty())
                    &&& q.2@ == editor_text(self.edit_popup_state.description_textarea, Seq::empty())
                    &&& q.3 == self.edit_popup_state.story_type
                    &&& q.4 == self.edit_popup_state.epic_id
                },
                None => trim(editor_text(self.edit_popup_state.name_textarea, Seq::empty())).len() == 0,
            },
    {
        proof {
            reveal_strlit("");
            assert(""@ =~= Seq::<char>::empty());
        }
        let name = text_of(&self.edit_popup_state.name_textarea, "");
        if is_blank(name.as_str()) {
            return None;
        }
        let description = text_of(&self.edit_popup_state.description_textarea, "");
        Some((
            self.edit_popup_state.story_id,
            name,
            description,
            self.edit_popup_state.story_type.clone(),
            self.edit_popup_state.epic_id,
        ))
    }

    /// The comment the comment popup asks to post: the story id and the
    /// lines joined with line breaks; nothing when the text is blank.
    pub fn comment_request(&self) -> (r: Option<(i64, String)>)
        ensures
            match r {
                Some(q) => {
                    &&& q.0 == self.comment_popup_state.story_id
                    &&& q.1@ == editor_text(self.comment_popup_state.comment_textarea, "\n"@)
                    &&& trim(q.1@).len() > 0
                },
                None => trim(editor_text(self.comment_popup_state.comment_textarea, "\n"@)).len() == 0,
            },
    {
        let text = text_of(&self.comment_popup_state.comment_textarea, "\n");
        if is_blank(text.as_str()) {
            None
        } else {
            Some((self.comment_popup_state.story_id, text))
        }
    }

    /// The epic the epic popup asks for: the name as typed (lines joined
    /// with nothing between them) and the description (lines joined with
    /// line breaks); nothing when the name is blank.
    pub fn epic_request(&self) -> (r: Option<(String, String)>)
        ensures
            match r {
                Some(q) => {
                    &&& trim(editor_text(self.create_epic_popup_state.name_textarea, Seq::empty())).len() > 0
                    &&& q.0@ == editor_text(self.create_epic_popup_state.name_textarea, Seq::empty())
                    &&& q.1@ == editor_text(self.create_epic_popup_state.description_textarea, "\n"@)
                },
                None => trim(editor_text(self.create_epic_popup_state.name_textarea, Seq::empty())).len() == 0,
            },
    {
        proof {
            reveal_strlit("");
            assert(""@ =~= Seq::<char>::empty());
        }
        let name = text_of(&self.create_epic_popup_state.name_textarea, "");
        if is_blank(name.as_str()) {
            return None;
        }
        let description = text_of(&self.create_epic_popup_state.description_textarea, "\n");
        Some((name, description))
    }

    /// The git operation the git popup asks for: the branch name and the
    /// worktree path as typed (lines joined with nothing between them), the
    /// chosen operation and the story; nothing on "cancel".
    pub fn git_request(&self) -> (r: Option<GitBranchRequest>)
        ensures
            match self.git_popup_state.selected_option {
                GitBranchOption::Cancel => r is None,
                GitBranchOption::CreateBranch => r matches Some(q) && q.operation == GitOperation::CreateBranch
                    && q.branch_name@ == editor_text(self.git_popup_state.branch_name_textarea, Seq::empty())
                    && q.worktree_path@ == editor_text(self.git_popup_state.worktree_path_textarea, Seq::empty())
                    && q.story_id == self.git_popup_state.story_id,
                GitBranchOption::CreateWorktree => r matches Some(q) && q.operation == GitOperation::CreateWorktree
                    && q.branch_name@ == editor_text(self.git_popup_state.branch_name_textarea, Seq::empty())
                    && q.worktree_path@ == editor_text(self.git_popup_state.worktree_path_textarea, Seq::empty())
                    && q.story_id == self.git_popup_state.story_id,
            },
    {
        proof {
            reveal_strlit("");
            assert(""@ =~= Seq::<char>::empty());
        }
        let operation = match self.git_popup_state.selected_option {
            GitBranchOption::Cancel => return None,
            GitBranchOption::CreateBranch => GitOperation::CreateBranch,
            GitBranchOption::CreateWorktree => GitOperation::CreateWorktree,
        };
        let branch_name = text_of(&self.git_popup_state.branch_name_textarea, "");
        let worktree_path = text_of(&self.git_popup_state.worktree_path_textarea, "");
        Some(GitBranchRequest { branch_name, worktree_path, operation, story_id: self.git_popup_state.story_id })
    }

    /// Takes in a story the service created: it joins the loaded stories;
    /// when it passes the epic filter it also joins its state's group and
    /// the list, and the group of `first_state_id` (the state new stories
    /// are created in) and the list are put back in position order.
    #[verifier::spinoff_prover]
    pub fn add_created_story(&mut self, story: Story, first_state_id: i64)
        ensures
            created_story_added(*old(self), *final(self), story@, first_state_id),
    {
        let shown = match self.selected_epic_filter {
            None => true,
            Some(e) => story.epic_id == Some(e),
        };
        if shown {
            self.show_created_story(story, first_state_id);
        } else {
            self.record_created_story(story, first_state_id);
        }
    }

    /// Adds a story that the epic filter hides to the loaded ones.
    #[verifier::spinoff_prover]
    fn record_created_story(&mut self, story: Story, first_state_id: i64)
        requires
            !passes_filter(old(self).selected_epic_filter, story@),
        ensures
            created_story_added(*old(self), *final(self), story@, first_state_id),
    {
        proof {
            reveal(created_story_added);
        }
        let mut v: Vec<Story> = Vec::new();
        std::mem::swap(&mut v, &mut self.all_stories_unfiltered);
        let ghost before = v.deep_view();
        v.push(story);
        assert(v.deep_view() =~= before.push(story@));
        self.all_stories_unfiltered = v;
    }

    /// Adds a story that the epic filter shows to the loaded ones, its
    /// state's group and the list.
    #[verifier::spinoff_prover]
    fn show_created_story(&mut self, story: Story, first_state_id: i64)
        requires
            passes_filter(old(self).selected_epic_filter, story@),
        ensures
            created_story_added(*old(self), *final(self), story@, first_state_id),
    {
        proof {
            reveal(created_story_added);
        }
        let listed = story.clone();
        let loaded = story.clone();
        let mut groups = crate::ui::board::StoryGroups::new();
        std::mem::swap(&mut groups, &mut self.stories_by_state);
        groups.add(story);
        groups.sort_group(first_state_id);
        let mut list: Vec<Story> = Vec::new();
        std::mem::swap(&mut list, &mut self.all_stories_list);
        let ghost l0 = list.deep_view();
        list.push(listed);
        assert(list.deep_view() =~= l0.push(story@));
        let sorted = sort_stories_by_position(list);
        let mut v: Vec<Story> = Vec::new();
        std::mem::swap(&mut v, &mut self.all_stories_unfiltered);
        let ghost before = v.deep_view();
        v.push(loaded);
        assert(v.deep_view() =~= before.push(story@));
        self.all_stories_unfiltered = v;
        self.stories_by_state = groups;
        self.all_stories_list = sorted;
    }

    /// The interface rebuilt from a first page of stories at the time `now`
    /// (see `new_at`), keeping the member cache, the current user, the
    /// epics and the repository of the interface it replaces.
    #[verifier::spinoff_prover]
    pub fn reload_at(&mut self, stories: Vec<Story>, next_page_token: Option<String>, now: i64)
        ensures
            exists|fresh: App|
                #[trigger] fresh.is_initial(
                    stories.deep_view(),
                    old(self).workflows.deep_view(),
                    old(self).search_query@,
                    next_page_token,
                    now as int,
                ) && *final(self) == (App {
                    member_cache: old(self).member_cache,
                    current_user_id: old(self).current_user_id,
                    epics: old(self).epics,
                    git_context: old(self).git_context,
                    ..fresh
                }),
    {
        let workflows = crate::api::copy_workflows(&self.workflows);
        let query = self.search_query.clone();
        let fresh = App::new_at(stories, workflows, query, next_page_token, now);
        let ghost f0 = fresh;
        let mut next = fresh;
        std::mem::swap(&mut next.member_cache, &mut self.member_cache);
        std::mem::swap(&mut next.current_user_id, &mut self.current_user_id);
        std::mem::swap(&mut next.epics, &mut self.epics);
        std::mem::swap(&mut next.git_context, &mut self.git_context);
        *self = next;
        assert(f0.is_initial(
            stories.deep_view(),
            old(self).workflows.deep_view(),
            old(self).search_query@,
            next_page_token,
            now as int,
        ));
    }

    /// The interface rebuilt from a first page of stories, judged at the
    /// current time (see `reload_at`).
    pub fn reload(&mut self, stories: Vec<Story>, next_page_token: Option<String>)
        ensures
            exists|now: i64, fresh: App|
                #[trigger] fresh.is_initial(
                    stories.deep_view(),
                    old(self).workflows.deep_view(),
                    old(self).search_query@,
                    next_page_token,
                    now as int,
                ) && *final(self) == (App {
                    member_cache: old(self).member_cache,
                    current_user_id: old(self).current_user_id,
                    epics: old(self).epics,
                    git_context: old(self).git_context,
                    ..fresh
                }),
    {
        let now = unix_now();
        self.reload_at(stories, next_page_token, now);
    }
}

impl App {
    /// The interface once a request to take the selected story was served.
    #[verifier::spinoff_prover]
    pub fn ownership_request_done(&mut self)
        ensures
            *final(self) == (App { take_ownership_requested: false, ..*old(self) }),
    {
        self.take_ownership_requested = false;
    }

    /// The interface once a story creation was asked of the service: the
    /// form emptied and the request cleared, whatever the reply.
    #[verifier::spinoff_prover]
    pub fn creation_request_done(&mut self)
        ensures
            *final(self) == (App {
                create_popup_state: final(self).create_popup_state,
                create_story_requested: false,
                ..*old(self)
            }),
            final(self).create_popup_state.is_fresh(),
    {
        self.create_popup_state = CreatePopupState::default();
        self.create_story_requested = false;
    }

    /// The interface once a story update was asked of the service: the form
    /// emptied and the request cleared, whatever the reply.
    #[verifier::spinoff_prover]
    pub fn edit_request_done(&mut self)
        ensures
            *final(self) == (App {
                edit_popup_state: final(self).edit_popup_state,
                edit_story_requested: false,
                ..*old(self)
            }),
            final(self).edit_popup_state.is_fresh(),
    {
        self.edit_popup_state = EditPopupState::blank();
        self.edit_story_requested = false;
    }

    /// The interface once a git request was served: the outcome of an
    /// operation that ran is shown in the result popup; the request is
    /// cleared and the git form emptied either way.
    #[verifier::spinoff_prover]
    pub fn git_request_done(&mut self, outcome: Option<GitBranchResult>)
        ensures
            *final(self) == (App {
                git_result_state: final(self).git_result_state,
                show_git_result_popup: final(self).show_git_result_popup,
                git_branch_requested: false,
                git_popup_state: final(self).git_popup_state,
                ..*old(self)
            }),
            final(self).git_popup_state.is_fresh(),
            match outcome {
                Some(result) => final(self).show_git_result_popup && reports(final(self).git_result_state, result),
                None => final(self).show_git_result_popup == old(self).show_git_result_popup
                    && final(self).git_result_state == old(self).git_result_state,
            },
    {
        match outcome {
            Some(result) => {
                self.git_result_state = GitResultState::from_result(result);
                self.show_git_result_popup = true;
            },
            None => {},
        }
        self.git_branch_requested = false;
        self.git_popup_state = GitBranchPopupState::blank();
    }

    /// Takes in an epic the service created: it joins the known epics, and
    /// nothing else changes.
    #[verifier::spinoff_prover]
    pub fn add_created_epic(&mut self, e: Epic)
        ensures
            final(self).epics@ == old(self).epics@.push(e),
            *final(self) == (App { epics: final(self).epics, ..*old(self) }),
    {
        self.epics.push(e);
    }

    /// The interface once a refresh was served: nothing is asked for or
    /// loading any more.
    #[verifier::spinoff_prover]
    pub fn refresh_done(&mut self)
        ensures
            *final(self) == (App { refresh_requested: false, is_loading: false, ..*old(self) }),
    {
        self.refresh_requested = false;
        self.is_loading = false;
    }

    /// The interface once a next page could not be had: nothing is asked
    /// for or loading any more.
    #[verifier::spinoff_prover]
    pub fn load_more_done(&mut self)
        ensures
            *final(self) == (App { load_more_requested: false, is_loading: false, ..*old(self) }),
    {
        self.load_more_requested = false;
        self.is_loading = false;
    }
}

} // verus!

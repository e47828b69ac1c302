//! Planning and interpreting branch and worktree creation for a story, and
//! moving the story to its in-progress state afterwards.
use vstd::prelude::*;
use crate::api::{Error, ShortcutApi, Story, Workflow, WorkflowState, WorkflowView};
use crate::git::{generate_worktree_path, worktree_path_of, GitContext, GitRepoType};
use crate::text::{concat, contains_ignore_case, contains_ignore_case_str};

verus! {

/// Request to create a git branch or worktree.
pub struct GitBranchRequest {
    pub branch_name: String,
    pub worktree_path: String,
    pub operation: GitOperation,
    pub story_id: i64,
}

/// Type of git operation to perform.
#[derive(Debug, Clone, Copy, PartialEq, Eq, Structural)]
pub enum GitOperation {
    CreateBranch,
    CreateWorktree,
}

/// Result of a git branch operation.
pub struct GitBranchResult {
    pub success: bool,
    pub message: String,
    pub branch_name: String,
    pub worktree_path: Option<String>,
    pub story_id: i64,
    pub operation: GitOperation,
}

impl GitBranchResult {
    /// A successful outcome; the worktree path is reported only for a
    /// worktree.
    pub fn success(message: String, request: &GitBranchRequest) -> (r: GitBranchResult)
        ensures
            r.success,
            r.message == message,
            r.branch_name == request.branch_name,
            r.worktree_path == (if request.operation == GitOperation::CreateWorktree {
                Some(request.worktree_path)
            } else {
                None::<String>
            }),
            r.story_id == request.story_id,
            r.operation == request.operation,
    {
        GitBranchResult {
            success: true,
            message,
            branch_name: request.branch_name.clone(),
            worktree_path: if request.operation == GitOperation::CreateWorktree {
                Some(request.worktree_path.clone())
            } else {
                None
            },
            story_id: request.story_id,
            operation: request.operation,
        }
    }

    /// A failed outcome, which never reports a worktree path.
    pub fn failure(message: String, request: &GitBranchRequest) -> (r: GitBranchResult)
        ensures
            !r.success,
            r.message == message,
            r.branch_name == request.branch_name,
            r.worktree_path is None,
            r.story_id == request.story_id,
            r.operation == request.operation,
    {
        GitBranchResult {
            success: false,
            message,
            branch_name: request.branch_name.clone(),
            worktree_path: None,
            story_id: request.story_id,
            operation: request.operation,
        }
    }
}

/// A git command that the caller is to run for an operation.
pub enum GitCommand {
    /// Check whether the branch already exists.
    CheckBranchExists { branch_name: String },
    /// Create the branch and switch to it.
    CreateBranch { branch_name: String },
    /// Create a worktree on a new branch.
    CreateWorktree { branch_name: String, worktree_path: String },
}

/// What a command reported; an error carries its description.
pub enum GitEvent {
    BranchExistsChecked(Result<bool, String>),
    BranchCreated(Result<(), String>),
    WorktreeCreated(Result<(), String>),
}

/// The next move of an operation: run a command, or stop with a result.
pub enum GitStep {
    Run(GitCommand),
    Finished(GitBranchResult),
}

/// The request of the `branch` command: a worktree when asked for or when
/// the repository is bare, a branch otherwise; the worktree path is made
/// from the branch name.
pub fn branch_command_request(
    branch_name: String,
    story_id: i64,
    use_worktree: bool,
    context: &GitContext,
) -> (r: GitBranchRequest)
    ensures
        r.branch_name == branch_name,
        r.worktree_path@ == worktree_path_of(branch_name@),
        r.story_id == story_id,
        r.operation == (if use_worktree || context.repo_type == GitRepoType::Bare {
            GitOperation::CreateWorktree
        } else {
            GitOperation::CreateBranch
        }),
{
    let worktree = use_worktree || context.is_bare_repo();
    let worktree_path = generate_worktree_path(branch_name.as_str());
    GitBranchRequest {
        branch_name,
        worktree_path,
        operation: if worktree {
            GitOperation::CreateWorktree
        } else {
            GitOperation::CreateBranch
        },
        story_id,
    }
}

/// The first command of an operation: a branch is first checked for, a
/// worktree is created at once.
pub fn begin_git_operation(request: &GitBranchRequest) -> (r: GitStep)
    ensures
        request.operation == GitOperation::CreateBranch ==> (r matches GitStep::Run(
            GitCommand::CheckBranchExists { branch_name },
        ) && branch_name == request.branch_name),
        request.operation == GitOperation::CreateWorktree ==> (r matches GitStep::Run(
            GitCommand::CreateWorktree { branch_name, worktree_path },
        ) && branch_name == request.branch_name && worktree_path == request.worktree_path),
{
    match request.operation {
        GitOperation::CreateBranch => GitStep::Run(
            GitCommand::CheckBranchExists { branch_name: request.branch_name.clone() },
        ),
        GitOperation::CreateWorktree => GitStep::Run(
            GitCommand::CreateWorktree {
                branch_name: request.branch_name.clone(),
                worktree_path: request.worktree_path.clone(),
            },
        ),
    }
}

/// The message text of a finished step, or nothing for a command.
pub open spec fn finished_with(step: GitStep, success: bool, message: Seq<char>) -> bool {
    step matches GitStep::Finished(res) && res.success == success && res.message@ == message
}

/// What follows a command's report. A branch that already exists, or a
/// failed check, ends the operation as a failure; a free name leads to its
/// creation; a creation's report ends the operation.
pub fn git_operation_step(request: &GitBranchRequest, event: GitEvent) -> (r: GitStep)
    ensures
        match event {
            GitEvent::BranchExistsChecked(Ok(true)) => finished_with(
                r,
                false,
                "Branch '"@ + request.branch_name@ + "' already exists"@,
            ),
            GitEvent::BranchExistsChecked(Ok(false)) => r matches GitStep::Run(
                GitCommand::CreateBranch { branch_name },
            ) && branch_name == request.branch_name,
            GitEvent::BranchExistsChecked(Err(e)) => finished_with(
                r,
                false,
                "Failed to check if branch exists: "@ + e@,
            ),
            GitEvent::BranchCreated(Ok(())) => finished_with(
                r,
                true,
                "Successfully created and switched to branch '"@ + request.branch_name@ + "'"@,
            ),
            GitEvent::BranchCreated(Err(e)) => finished_with(
                r,
                false,
                "Failed to create branch '"@ + request.branch_name@ + "': "@ + e@,
            ),
            GitEvent::WorktreeCreated(Ok(())) => finished_with(
                r,
                true,
                "Successfully created worktree '"@ + request.branch_name@ + "' at '"@
                    + request.worktree_path@ + "'"@,
            ),
            GitEvent::WorktreeCreated(Err(e)) => finished_with(
                r,
                false,
                "Failed to create worktree: "@ + e@,
            ),
        },
        r matches GitStep::Finished(res) ==> res.branch_name == request.branch_name
            && res.story_id == request.story_id && res.operation == request.operation
            && res.worktree_path == (if res.success && request.operation == GitOperation::CreateWorktree {
                Some(request.worktree_path)
            } else {
                None::<String>
            }),
{
    match event {
        GitEvent::BranchExistsChecked(Ok(true)) => {
            let m = concat(concat("Branch '", request.branch_name.as_str()).as_str(), "' already exists");
            GitStep::Finished(GitBranchResult::failure(m, request))
        },
        GitEvent::BranchExistsChecked(Ok(false)) => GitStep::Run(
            GitCommand::CreateBranch { branch_name: request.branch_name.clone() },
        ),
        GitEvent::BranchExistsChecked(Err(e)) => {
            let m = concat("Failed to check if branch exists: ", e.as_str());
            GitStep::Finished(GitBranchResult::failure(m, request))
        },
        GitEvent::BranchCreated(Ok(())) => {
            let m = concat(
                concat("Successfully created and switched to branch '", request.branch_name.as_str()).as_str(),
                "'",
            );
            GitStep::Finished(GitBranchResult::success(m, request))
        },
        GitEvent::BranchCreated(Err(e)) => {
            let m = concat(
                concat(concat("Failed to create branch '", request.branch_name.as_str()).as_str(), "': ").as_str(),
                e.as_str(),
            );
            GitStep::Finished(GitBranchResult::failure(m, request))
        },
        GitEvent::WorktreeCreated(Ok(())) => {
            let a = concat(concat("Successfully created worktree '", request.branch_name.as_str()).as_str(), "' at '");
            let m = concat(concat(a.as_str(), request.worktree_path.as_str()).as_str(), "'");
            GitStep::Finished(GitBranchResult::success(m, request))
        },
        GitEvent::WorktreeCreated(Err(e)) => {
            let m = concat("Failed to create worktree: ", e.as_str());
            GitStep::Finished(GitBranchResult::failure(m, request))
        },
    }
}

/// Whether a workflow state counts as "in progress": a `started` state, or
/// one whose name holds `progress` or `doing` in any letter case.
pub open spec fn is_in_progress_state(s: WorkflowState) -> bool {
    ||| s.state_type@ == "started"@
    ||| contains_ignore_case(s.name@, "progress"@)
    ||| contains_ignore_case(s.name@, "doing"@)
}

/// All states of the workflows, workflow by workflow.
pub open spec fn all_states(ws: Seq<WorkflowView>) -> Seq<WorkflowState>
    decreases ws.len(),
{
    if ws.len() == 0 {
        Seq::empty()
    } else {
        all_states(ws.drop_last()) + ws.last().states
    }
}

/// The id of the first in-progress state in the sequence.
pub open spec fn first_in_progress(states: Seq<WorkflowState>) -> Option<i64>
    decreases states.len(),
{
    if states.len() == 0 {
        None
    } else if is_in_progress_state(states[0]) {
        Some(states[0].id)
    } else {
        first_in_progress(states.drop_first())
    }
}

proof fn lemma_first_in_progress_skip(a: Seq<WorkflowState>, b: Seq<WorkflowState>)
    requires
        forall|k: int| 0 <= k < a.len() ==> !is_in_progress_state(#[trigger] a[k]),
    ensures
        first_in_progress(a + b) == first_in_progress(b),
    decreases a.len(),
{
    if a.len() > 0 {
        assert((a + b)[0] == a[0]);
        assert((a + b).drop_first() =~= a.drop_first() + b);
        assert forall|k: int| 0 <= k < a.drop_first().len() implies !is_in_progress_state(#[trigger] a.drop_first()[k]) by {
            assert(a.drop_first()[k] == a[k + 1]);
        }
        lemma_first_in_progress_skip(a.drop_first(), b);
    } else {
        assert(a + b =~= b);
    }
}

fn is_in_progress(state: &WorkflowState) -> (r: bool)
    ensures
        r == is_in_progress_state(*state),
{
    state.state_type == String::from_str("started")
        || contains_ignore_case_str(state.name.as_str(), "progress")
        || contains_ignore_case_str(state.name.as_str(), "doing")
}

/// Finds the "In Progress" state: the first state, over the workflows in
/// order, that is `started` or whose name holds `progress` or `doing`.
pub fn find_in_progress_state_id(workflows: &[Workflow]) -> (r: Option<i64>)
    ensures
        r == first_in_progress(all_states(workflows.deep_view())),
{
    let ghost ws = workflows.deep_view();
    assert(ws.skip(0) =~= ws);
    assert(all_states(ws.take(0)) =~= Seq::<WorkflowState>::empty()) by {
        assert(ws.take(0) =~= Seq::<WorkflowView>::empty());
    }
    let mut i: usize = 0;
    while i < workflows.len()
        invariant
            i <= ws.len(),
            ws == workflows.deep_view(),
            forall|k: int| 0 <= k < all_states(ws.take(i as int)).len() ==> !is_in_progress_state(#[trigger] all_states(ws.take(i as int))[k]),
            first_in_progress(all_states(ws)) == first_in_progress(all_states(ws.skip(i as int))),
        decreases ws.len() - i,
    {
        let states = &workflows[i].states;
        let ghost done = all_states(ws.take(i as int));
        let mut j: usize = 0;
        while j < states.len()
            invariant
                i < ws.len(),
                j <= states@.len(),
                ws == workflows.deep_view(),
                states@ == ws[i as int].states,
                forall|k: int| 0 <= k < j ==> !is_in_progress_state(#[trigger] states@[k]),
                done == all_states(ws.take(i as int)),
                forall|k: int| 0 <= k < done.len() ==> !is_in_progress_state(#[trigger] done[k]),
                first_in_progress(all_states(ws)) == first_in_progress(all_states(ws.skip(i as int))),
            decreases states@.len() - j,
        {
            if is_in_progress(&states[j]) {
                proof {
                    lemma_states_split(ws, i as int);
                    assert forall|k: int| 0 <= k < states@.take(j as int).len() implies !is_in_progress_state(#[trigger] states@.take(j as int)[k]) by {
                        assert(states@.take(j as int)[k] == states@[k]);
                    }
                    lemma_first_in_progress_skip(states@.take(j as int), states@.skip(j as int) + all_states_from(ws, i + 1));
                    assert(states@.take(j as int) + (states@.skip(j as int) + all_states_from(ws, i + 1)) =~= states@ + all_states_from(ws, i + 1));
                    let rest = all_states_from(ws, i + 1);
                    let b = states@.skip(j as int) + rest;
                    assert(b[0] == states@[j as int]);
                    assert(is_in_progress_state(b[0]));
                    assert(first_in_progress(b) == Some(states@[j as int].id));
                    assert(first_in_progress(all_states(ws)) == first_in_progress(states@ + rest));
                }
                return Some(states[j].id);
            }
            j = j + 1;
        }
        proof {
            lemma_states_split(ws, i as int);
            lemma_first_in_progress_skip(states@, all_states_from(ws, i + 1));
            lemma_all_states_take(ws, i as int);
            assert forall|k: int| 0 <= k < all_states(ws.take(i + 1)).len() implies !is_in_progress_state(#[trigger] all_states(ws.take(i + 1))[k]) by {
                if k < done.len() {
                    assert(all_states(ws.take(i + 1))[k] == done[k]);
                } else {
                    assert(all_states(ws.take(i + 1))[k] == states@[k - done.len()]);
                }
            }
        }
        i = i + 1;
    }
    proof {
        lemma_states_split(ws, ws.len() as int);
    }
    None
}

/// The states of the workflows from index `i` on.
pub open spec fn all_states_from(ws: Seq<WorkflowView>, i: int) -> Seq<WorkflowState> {
    all_states(ws.skip(i))
}

proof fn lemma_all_states_concat(a: Seq<WorkflowView>, b: Seq<WorkflowView>)
    ensures
        all_states(a + b) == all_states(a) + all_states(b),
    decreases b.len(),
{
    if b.len() == 0 {
        assert(a + b =~= a);
        assert(all_states(a) + all_states(b) =~= all_states(a));
    } else {
        assert((a + b).drop_last() =~= a + b.drop_last());
        assert((a + b).last() == b.last());
        lemma_all_states_concat(a, b.drop_last());
        assert(all_states(a) + all_states(b) =~= all_states(a) + all_states(b.drop_last()) + b.last().states);
    }
}

pub proof fn lemma_all_states_take(ws: Seq<WorkflowView>, i: int)
    requires
        0 <= i < ws.len(),
    ensures
        all_states(ws.take(i + 1)) == all_states(ws.take(i)) + ws[i].states,
{
    assert(ws.take(i + 1).drop_last() =~= ws.take(i));
}

proof fn lemma_states_split(ws: Seq<WorkflowView>, i: int)
    requires
        0 <= i <= ws.len(),
    ensures
        i < ws.len() ==> all_states(ws.skip(i)) == ws[i].states + all_states(ws.skip(i + 1)),
        i == ws.len() ==> all_states(ws.skip(i)) == Seq::<WorkflowState>::empty(),
{
    if i < ws.len() {
        assert(ws.skip(i) =~= seq![ws[i]] + ws.skip(i + 1));
        lemma_all_states_concat(seq![ws[i]], ws.skip(i + 1));
        assert(seq![ws[i]].drop_last() =~= Seq::<WorkflowView>::empty());
        assert(all_states(Seq::<WorkflowView>::empty()) =~= Seq::<WorkflowState>::empty());
        assert(all_states(seq![ws[i]]) =~= ws[i].states);
    } else {
        assert(ws.skip(i) =~= Seq::<WorkflowView>::empty());
    }
}

/// Whether git operations are available in the context.
pub fn is_git_available(context: &GitContext) -> (r: bool)
    ensures
        r == (context.repo_type != GitRepoType::NotARepo),
{
    context.repo_type != GitRepoType::NotARepo
}

/// The operation that suits the repository: a worktree in a bare
/// repository, a branch otherwise.
pub fn default_operation_for_context(context: &GitContext) -> (r: GitOperation)
    ensures
        r == (if context.repo_type == GitRepoType::Bare {
            GitOperation::CreateWorktree
        } else {
            GitOperation::CreateBranch
        }),
{
    if context.is_bare_repo() {
        GitOperation::CreateWorktree
    } else {
        GitOperation::CreateBranch
    }
}

/// The story that a state update reported, if it succeeded.
pub fn in_progress_outcome(update: Result<Story, Error>) -> (r: Option<Story>)
    ensures
        match update {
            Ok(s) => r == Some(s),
            Err(_) => r is None,
        },
{
    match update {
        Ok(s) => Some(s),
        Err(_) => None,
    }
}

/// The state update that moves a story to its in-progress state: the story
/// and the first in-progress state, or nothing for a story id that is not
/// positive or when no state is in progress.
pub open spec fn in_progress_update(story_id: i64, ws: Seq<WorkflowView>) -> Option<(i64, i64)> {
    if story_id <= 0 {
        None
    } else {
        match first_in_progress(all_states(ws)) {
            Some(state_id) => Some((story_id, state_id)),
            None => None,
        }
    }
}

/// Computes `in_progress_update`.
pub fn in_progress_request(story_id: i64, workflows: &[Workflow]) -> (r: Option<(i64, i64)>)
    ensures
        r == in_progress_update(story_id, workflows.deep_view()),
{
    if story_id <= 0 {
        return None;
    }
    match find_in_progress_state_id(workflows) {
        Some(state_id) => Some((story_id, state_id)),
        None => None,
    }
}

/// Moves a story to its in-progress state after a successful git operation:
/// sends `in_progress_request` to the service when there is one, and
/// returns the updated story as `in_progress_outcome` does; nothing is asked
/// and nothing returned when there is none.
pub fn move_story_to_in_progress<C: ShortcutApi>(
    client: &C,
    story_id: i64,
    workflows: &[Workflow],
    debug: bool,
) -> (r: Option<Story>)
    ensures
        in_progress_update(story_id, workflows.deep_view()) is None ==> r is None,
        r is Some ==> in_progress_update(story_id, workflows.deep_view()) is Some,
{
    match in_progress_request(story_id, workflows) {
        None => None,
        Some((id, state_id)) => in_progress_outcome(client.update_story_state(id, state_id)),
    }
}

/// What `first_in_progress` finds, by the states themselves: some state
/// when one has type `started`, and only one with no `started` state
/// before it.
proof fn lemma_first_in_progress_finds_started(states: Seq<WorkflowState>)
    ensures
        (exists|i: int| 0 <= i < states.len() && states[i].state_type@ == "started"@) ==> first_in_progress(
            states,
        ) is Some,
        first_in_progress(states) matches Some(s) ==> exists|j: int|
            0 <= j < states.len() && states[j].id == s && (forall|k: int|
                0 <= k < j ==> states[k].state_type@ != "started"@),
    decreases states.len(),
{
    if states.len() > 0 {
        let tail = states.drop_first();
        lemma_first_in_progress_finds_started(tail);
        if !is_in_progress_state(states[0]) {
            if exists|i: int| 0 <= i < states.len() && states[i].state_type@ == "started"@ {
                let i = choose|i: int| 0 <= i < states.len() && states[i].state_type@ == "started"@;
                assert(i > 0);
                assert(tail[i - 1] == states[i]);
            }
            if first_in_progress(states) is Some {
                let j = choose|j: int|
                    0 <= j < tail.len() && tail[j].id == first_in_progress(tail)->0 && (forall|k: int|
                        0 <= k < j ==> tail[k].state_type@ != "started"@);
                assert(states[j + 1] == tail[j]);
                assert forall|k: int| 0 <= k < j + 1 implies states[k].state_type@ != "started"@ by {
                    if k > 0 {
                        assert(states[k] == tail[k - 1]);
                    }
                }
            }
        } else {
            assert(forall|k: int| 0 <= k < 0 ==> states[k].state_type@ != "started"@);
        }
    }
}

/// Moving a story to its in-progress state finds a state of type
/// `started`, whatever its name: with a positive story id and such a state
/// in some workflow, the update is asked for that story, and the state
/// asked for has no `started` state before it, over the workflows in order.
pub proof fn lemma_started_state_is_in_progress(story_id: i64, ws: Seq<WorkflowView>)
    ensures
        story_id > 0 && (exists|i: int|
            0 <= i < all_states(ws).len() && all_states(ws)[i].state_type@ == "started"@)
            ==> in_progress_update(story_id, ws) is Some,
        in_progress_update(story_id, ws) matches Some(u) ==> u.0 == story_id && story_id > 0 && exists|j: int|
            0 <= j < all_states(ws).len() && all_states(ws)[j].id == u.1 && (forall|k: int|
                0 <= k < j ==> all_states(ws)[k].state_type@ != "started"@),
{
    lemma_first_in_progress_finds_started(all_states(ws));
}

} // verus!

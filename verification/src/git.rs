//! Git repository context and the naming rules for branches and worktrees.
use vstd::prelude::*;
use crate::text::{chars_of, string_of, trim, trim_str, eq_ignore_ascii_case, eq_ignore_ascii_case_str};

pub mod naming;
pub mod operations;

verus! {

/// The kind of repository the working directory is in.
#[derive(Debug, Clone, Copy, PartialEq, Eq, Structural)]
pub enum GitRepoType {
    Normal,
    Bare,
    NotARepo,
}

/// What is known of the working directory's repository.
pub struct GitContext {
    pub repo_type: GitRepoType,
    pub current_branch: Option<String>,
}

impl GitContext {
    /// The context of a directory whose repository probe gave `repo_type`
    /// and whose branch probe gave `branch` (`None` when it failed): the
    /// branch is kept only inside a repository.
    pub fn detect(repo_type: GitRepoType, branch: Option<String>) -> (r: GitContext)
        ensures
            r.repo_type == repo_type,
            r.current_branch == (if repo_type != GitRepoType::NotARepo {
                branch
            } else {
                None
            }),
    {
        let current_branch = if repo_type != GitRepoType::NotARepo {
            branch
        } else {
            None
        };
        GitContext { repo_type, current_branch }
    }

    /// Whether the directory is inside a repository of either kind.
    pub fn is_git_repo(&self) -> (r: bool)
        ensures
            r == (self.repo_type != GitRepoType::NotARepo),
    {
        self.repo_type != GitRepoType::NotARepo
    }

    /// Whether the repository is a bare one.
    pub fn is_bare_repo(&self) -> (r: bool)
        ensures
            r == (self.repo_type == GitRepoType::Bare),
    {
        self.repo_type == GitRepoType::Bare
    }
}

impl Clone for GitContext {
    fn clone(&self) -> (r: Self)
        ensures
            r == *self,
    {
        let current_branch = match &self.current_branch {
            Some(b) => Some(b.clone()),
            None => None,
        };
        GitContext { repo_type: self.repo_type, current_branch }
    }
}

/// The repository kind that the two probes report: whether `--git-dir`
/// succeeded, whether `--is-bare-repository` succeeded, and what the latter
/// printed.
pub open spec fn repo_type_of(in_repo: bool, bare_probe_ok: bool, bare_output: Seq<char>) -> GitRepoType {
    if !in_repo || !bare_probe_ok {
        GitRepoType::NotARepo
    } else if eq_ignore_ascii_case(trim(bare_output), "true"@) {
        GitRepoType::Bare
    } else {
        GitRepoType::Normal
    }
}

/// Classifies the repository from the probes' results: outside a repository
/// when either probe failed, bare when the second printed `true` in any
/// letter case (surrounding white space ignored), normal otherwise.
pub fn classify_repo(in_repo: bool, bare_probe_ok: bool, bare_output: &str) -> (r: GitRepoType)
    ensures
        r == repo_type_of(in_repo, bare_probe_ok, bare_output@),
{
    if !in_repo || !bare_probe_ok {
        return GitRepoType::NotARepo;
    }
    let t = trim_str(bare_output);
    if eq_ignore_ascii_case_str(t.as_str(), "true") {
        GitRepoType::Bare
    } else {
        GitRepoType::Normal
    }
}

/// The branch name a `--abbrev-ref HEAD` probe printed: its output with
/// surrounding white space removed.
pub fn branch_from_output(output: &str) -> (r: String)
    ensures
        r@ == trim(output@),
{
    trim_str(output)
}

/// A path character that is replaced in worktree directory names.
pub open spec fn unsafe_path_char(c: char) -> bool {
    c == '/' || c == '\\' || c == ' '
}

/// The worktree directory name of a branch: a sibling directory named like
/// the branch, with `/`, `\` and spaces turned into `-`.
pub open spec fn worktree_path_of(branch: Seq<char>) -> Seq<char> {
    "../"@ + branch.map_values(|c: char| if unsafe_path_char(c) { '-' } else { c })
}

/// Builds the worktree directory for a branch.
pub fn generate_worktree_path(branch_name: &str) -> (r: String)
    ensures
        r@ == worktree_path_of(branch_name@),
{
    let cs = chars_of(branch_name);
    let mut out: Vec<char> = Vec::new();
    out.push('.');
    out.push('.');
    out.push('/');
    let ghost mapped = branch_name@.map_values(|c: char| if unsafe_path_char(c) { '-' } else { c });
    let mut i: usize = 0;
    while i < cs.len()
        invariant
            i <= cs@.len(),
            cs@ == branch_name@,
            mapped == branch_name@.map_values(|c: char| if unsafe_path_char(c) { '-' } else { c }),
            out@ == seq!['.', '.', '/'] + mapped.take(i as int),
        decreases cs@.len() - i,
    {
        let c = cs[i];
        if c == '/' || c == '\\' || c == ' ' {
            out.push('-');
        } else {
            out.push(c);
        }
        assert(mapped.take(i + 1) =~= mapped.take(i as int).push(mapped[i as int]));
        i = i + 1;
    }
    assert(mapped.take(cs@.len() as int) =~= mapped);
    proof {
        reveal_strlit("../");
    }
    assert(out@ =~= worktree_path_of(branch_name@));
    string_of(out.as_slice())
}

} // verus!

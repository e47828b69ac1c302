//! The interface's state: the board, the selection, the popups, paging and
//! the epic filter, and the operations on them.
use crate::api::{copy_stories, Epic, EpicView, Story, StoryView, Workflow, WorkflowState, WorkflowView};
use crate::git::{GitContext, GitRepoType};
use crate::git::operations::all_states;
use crate::timekeeping::unix_now;
use crate::ui::board::{
    column_order, flatten_groups, flatten_states, group_lookup, grouped, limit_groups, name_table,
    on_board, sort_by_position, sort_groups, board_stories, sort_stories_by_position, state_columns,
    GroupsView, StoryGroups,
};
use crate::ui::popups::{
    Area, ClickableUrl, CommentPopupState, CreateEpicPopupState, CreatePopupState, EditPopupState,
    GitBranchPopupState, GitResultState,
};
use vstd::prelude::*;

verus! {

broadcast use vstd::seq_lib::group_seq_properties;

/// The whole state of the interface.
pub struct App {
    pub show_detail: bool,
    pub show_state_selector: bool,
    pub state_selector_index: usize,
    pub take_ownership_requested: bool,
    pub create_story_requested: bool,
    pub show_create_popup: bool,
    pub create_popup_state: CreatePopupState,
    pub edit_story_requested: bool,
    pub show_edit_popup: bool,
    pub edit_popup_state: EditPopupState,
    /// The name of each known workflow state, by id.
    pub workflow_state_map: Vec<(i64, String)>,
    /// Member names by member id.
    pub member_cache: Vec<(String, String)>,
    pub current_user_id: Option<String>,
    pub detail_scroll_offset: usize,
    pub should_quit: bool,
    pub selected_column: usize,
    pub selected_row: usize,
    /// The board's columns: the stories shown, grouped by state.
    pub stories_by_state: StoryGroups,
    /// The columns, `(state id, name)` in position order.
    pub workflow_states: Vec<(i64, String)>,
    pub workflows: Vec<Workflow>,
    pub list_view_mode: bool,
    /// The stories shown in the list view.
    pub all_stories_list: Vec<Story>,
    pub list_selected_index: usize,
    pub list_scroll_offset: usize,
    pub search_query: String,
    pub next_page_token: Option<String>,
    pub load_more_requested: bool,
    pub is_loading: bool,
    pub total_loaded_stories: usize,
    pub git_context: GitContext,
    pub show_git_popup: bool,
    pub git_popup_state: GitBranchPopupState,
    pub git_branch_requested: bool,
    pub show_git_result_popup: bool,
    pub git_result_state: GitResultState,
    pub refresh_requested: bool,
    pub epics: Vec<Epic>,
    pub selected_epic_filter: Option<i64>,
    pub show_epic_selector: bool,
    pub epic_selector_index: usize,
    /// Every story loaded and kept, before the epic filter.
    pub all_stories_unfiltered: Vec<Story>,
    pub show_help_popup: bool,
    pub help_selected_index: usize,
    pub show_create_epic_popup: bool,
    pub create_epic_popup_state: CreateEpicPopupState,
    pub create_epic_requested: bool,
    pub show_comment_popup: bool,
    pub comment_popup_state: CommentPopupState,
    pub add_comment_requested: bool,
    /// The links of the detail popup, where the last drawing put them.
    pub clickable_urls: Vec<ClickableUrl>,
    /// Where the last drawing put the detail popup.
    pub detail_area: Option<Area>,
    /// The worktree to change to once the interface has closed.
    pub exit_directory: Option<String>,
}

// ---------------------------------------------------------------------------
// Model



/// The index of the first column whose state has stories, or 0.
pub open spec fn first_filled_column(cols: Seq<(i64, String)>, groups: GroupsView) -> int
    decreases cols.len(),
{
    if cols.len() == 0 {
        0
    } else {
        let k = first_filled_column(cols.drop_last(), groups);
        if column_filled(cols.drop_last(), groups) {
            k
        } else if group_filled(groups, cols.last().0) {
            cols.len() - 1
        } else {
            0
        }
    }
}

/// Whether the state's group exists and has stories.
pub open spec fn group_filled(groups: GroupsView, id: i64) -> bool {
    match group_lookup(groups, id) {
        Some(g) => g.len() > 0,
        None => false,
    }
}

/// Whether some column's state has stories.
pub open spec fn column_filled(cols: Seq<(i64, String)>, groups: GroupsView) -> bool {
    exists|i: int| 0 <= i < cols.len() && group_filled(groups, #[trigger] cols[i].0)
}

/// The stories of an epic (all of them when no epic is given), in order.
pub open spec fn of_epic(s: Seq<StoryView>, epic: Option<i64>) -> Seq<StoryView>
    decreases s.len(),
{
    if s.len() == 0 {
        s
    } else {
        let rest = of_epic(s.drop_last(), epic);
        match epic {
            Some(e) => if s.last().epic_id == Some(e) {
                rest.push(s.last())
            } else {
                rest
            },
            None => rest.push(s.last()),
        }
    }
}

/// Whether a story with this id is in the sequence.
pub open spec fn has_story_id(s: Seq<StoryView>, id: i64) -> bool {
    exists|i: int| 0 <= i < s.len() && (#[trigger] s[i]).id == id
}

/// Appends, in order, each story whose id is not yet present.
pub open spec fn add_new_ids(base: Seq<StoryView>, s: Seq<StoryView>) -> Seq<StoryView>
    decreases s.len(),
{
    if s.len() == 0 {
        base
    } else {
        let b = add_new_ids(base, s.drop_last());
        if has_story_id(b, s.last().id) {
            b
        } else {
            b.push(s.last())
        }
    }
}

/// The columns a story could move to: every column but its own state's.
pub open spec fn states_except(cols: Seq<(i64, String)>, id: i64) -> Seq<(i64, String)>
    decreases cols.len(),
{
    if cols.len() == 0 {
        cols
    } else if cols.last().0 != id {
        states_except(cols.drop_last(), id).push(cols.last())
    } else {
        states_except(cols.drop_last(), id)
    }
}

/// The index of the last cache entry for a member id, or -1.
pub open spec fn cache_index(c: Seq<(String, String)>, id: Seq<char>) -> int
    decreases c.len(),
{
    if c.len() == 0 {
        -1
    } else if c.last().0@ == id {
        c.len() - 1
    } else {
        cache_index(c.drop_last(), id)
    }
}

/// The cache with a member's name recorded: the member's entry replaced,
/// or a new entry at the end.
pub open spec fn cache_insert(c: Seq<(String, String)>, id: String, name: String) -> Seq<(String, String)> {
    let k = cache_index(c, id@);
    if k >= 0 {
        c.update(k, (id, name))
    } else {
        c.push((id, name))
    }
}

/// The name cached for a member id.
pub open spec fn cached_name(c: Seq<(String, String)>, id: Seq<char>) -> Option<String>
    decreases c.len(),
{
    if c.len() == 0 {
        None
    } else if c.last().0@ == id {
        Some(c.last().1)
    } else {
        cached_name(c.drop_last(), id)
    }
}

/// The stories shown for a filter: grouped by state, each group in
/// position order, groups of done states cut to ten.
pub open spec fn board_groups(s: Seq<StoryView>, states: Seq<WorkflowState>) -> GroupsView {
    limit_groups(sort_groups(grouped(s)), states)
}

impl App {
    /// The workflow states of the app's workflows, workflow by workflow.
    pub open spec fn states(&self) -> Seq<WorkflowState> {
        all_states(self.workflows.deep_view())
    }

    /// The stories of the selected column, when there are columns and the
    /// selected column's state has a group.
    pub open spec fn column_stories(&self) -> Option<Seq<StoryView>> {
        if self.workflow_states@.len() == 0 {
            None
        } else {
            group_lookup(self.stories_by_state@, self.workflow_states@[self.selected_column as int].0)
        }
    }

    /// The number of stories in the selected column.
    pub open spec fn column_len(&self) -> int {
        match self.column_stories() {
            Some(g) => g.len() as int,
            None => 0,
        }
    }

    /// Whether the selected column has stories.
    pub open spec fn column_has_stories(&self) -> bool {
        match self.column_stories() {
            Some(g) => g.len() > 0,
            None => false,
        }
    }

    /// The selected story: in the list view the one at the list index; in
    /// the column view the one at the selected row of the selected column.
    pub open spec fn selected_story(&self) -> Option<StoryView> {
        if self.list_view_mode {
            if self.list_selected_index < self.all_stories_list@.len() {
                Some(self.all_stories_list@[self.list_selected_index as int]@)
            } else {
                None
            }
        } else {
            match self.column_stories() {
                Some(g) => if self.selected_row < g.len() {
                    Some(g[self.selected_row as int])
                } else {
                    None
                },
                None => None,
            }
        }
    }

    /// The selected column lies among the columns (when there are any), the
    /// forms' type choices among the three story types, and the epics leave
    /// room for the extra "no epic" choice.
    pub open spec fn wf(&self) -> bool {
        &&& (self.workflow_states@.len() == 0 || self.selected_column < self.workflow_states@.len())
        &&& self.create_popup_state.story_type_index < 3
        &&& self.edit_popup_state.story_type_index < 3
        &&& self.epics@.len() < usize::MAX
    }

    /// The columns the selected story could move to.
    pub open spec fn target_states(&self) -> Seq<(i64, String)> {
        match self.selected_story() {
            Some(s) => states_except(self.workflow_states@, s.workflow_state_id),
            None => Seq::empty(),
        }
    }

    /// The board, list and count shown for the loaded stories under the
    /// current epic filter, with the selection back at the start.
    #[verifier::opaque]
    pub open spec fn shows_filtered(&self, unfiltered: Seq<StoryView>) -> bool {
        let shown = of_epic(unfiltered, self.selected_epic_filter);
        let groups = board_groups(shown, self.states());
        &&& self.all_stories_unfiltered.deep_view() == unfiltered
        &&& self.stories_by_state@ == groups
        &&& self.all_stories_list.deep_view() == sort_by_position(flatten_groups(groups))
        &&& self.total_loaded_stories == self.all_stories_list@.len()
        &&& self.selected_column == 0
        &&& self.selected_row == 0
        &&& self.list_selected_index == 0
        &&& self.list_scroll_offset == 0
    }

    /// The state `new` builds from loaded stories, workflows, the query and
    /// the next page's token, at the time `now`.
    pub open spec fn is_initial(
        &self,
        stories: Seq<StoryView>,
        workflows: Seq<WorkflowView>,
        query: Seq<char>,
        token: Option<String>,
        now: int,
    ) -> bool {
        let states = all_states(workflows);
        let kept = on_board(stories, states, now);
        &&& self.workflows.deep_view() == workflows
        &&& self.stories_by_state@ == board_groups(kept, states)
        &&& self.workflow_state_map@ == name_table(states)
        &&& self.workflow_states@ == column_order(states)
        &&& self.selected_column == first_filled_column(column_order(states), self.stories_by_state@)
        &&& self.selected_row == 0
        &&& self.all_stories_list.deep_view() == sort_by_position(kept)
        &&& self.all_stories_unfiltered.deep_view() == kept
        &&& self.total_loaded_stories == kept.len()
        &&& self.search_query@ == query
        &&& self.next_page_token == token
        &&& !self.show_detail && !self.show_state_selector && self.state_selector_index == 0
        &&& !self.take_ownership_requested && !self.create_story_requested
        &&& !self.show_create_popup && self.create_popup_state.is_fresh()
        &&& !self.edit_story_requested && !self.show_edit_popup
        &&& self.edit_popup_state.is_fresh()
        &&& self.member_cache@.len() == 0 && self.current_user_id.is_none()
        &&& self.detail_scroll_offset == 0 && !self.should_quit
        &&& !self.list_view_mode && self.list_selected_index == 0 && self.list_scroll_offset == 0
        &&& !self.load_more_requested && !self.is_loading
        &&& self.git_context.repo_type == GitRepoType::NotARepo
        &&& self.git_context.current_branch.is_none()
        &&& !self.show_git_popup && self.git_popup_state.is_fresh() && !self.git_branch_requested
        &&& !self.show_git_result_popup && self.git_result_state.is_fresh()
        &&& !self.refresh_requested
        &&& self.epics@.len() == 0 && self.selected_epic_filter.is_none()
        &&& !self.show_epic_selector && self.epic_selector_index == 0
        &&& !self.show_help_popup && self.help_selected_index == 0
        &&& !self.show_create_epic_popup && self.create_epic_popup_state.is_fresh()
        &&& !self.create_epic_requested
        &&& !self.show_comment_popup && self.comment_popup_state.is_fresh_for(0)
        &&& !self.add_comment_requested
        &&& self.clickable_urls@.len() == 0 && self.detail_area.is_none()
        &&& self.exit_directory.is_none()
    }
}

// ---------------------------------------------------------------------------
// Construction

fn first_filled(cols: &Vec<(i64, String)>, groups: &StoryGroups) -> (r: usize)
    ensures
        r == first_filled_column(cols@, groups@),
        cols@.len() == 0 || r < cols@.len(),
{
    let mut i: usize = 0;
    while i < cols.len()
        invariant
            i <= cols@.len(),
            !column_filled(cols@.take(i as int), groups@),
            first_filled_column(cols@.take(i as int), groups@) == 0,
        decreases cols@.len() - i,
    {
        let ghost t = cols@.take(i + 1);
        assert(t.drop_last() =~= cols@.take(i as int));
        let filled = match groups.get(cols[i].0) {
            Some(g) => g.len() > 0,
            None => false,
        };
        if filled {
            proof {
                lemma_first_filled_stays(cols@, groups@, i as int + 1);
            }
            return i;
        }
        assert(!column_filled(t, groups@)) by {
            assert forall|k: int| 0 <= k < t.len() implies !group_filled(groups@, #[trigger] t[k].0) by {
                if k < i {
                    assert(t[k] == cols@.take(i as int)[k]);
                }
            }
        }
        i = i + 1;
    }
    assert(cols@.take(cols@.len() as int) =~= cols@);
    0
}

/// Once a prefix has a filled column, longer prefixes keep the same first one.
proof fn lemma_first_filled_stays(cols: Seq<(i64, String)>, groups: GroupsView, n: int)
    requires
        1 <= n <= cols.len(),
        !column_filled(cols.take(n - 1), groups),
        group_filled(groups, cols[n - 1].0),
    ensures
        first_filled_column(cols, groups) == n - 1,
    decreases cols.len() - n,
{
    assert(cols.take(n).drop_last() =~= cols.take(n - 1));
    assert(cols.take(n).last() == cols[n - 1]);
    assert(column_filled(cols.take(n), groups)) by {
        assert(cols.take(n)[n - 1] == cols[n - 1]);
    }
    if n == cols.len() {
        assert(cols.take(n) =~= cols);
    } else {
        lemma_first_filled_prefix(cols, groups, n, cols.len() as int);
    }
}

proof fn lemma_first_filled_prefix(cols: Seq<(i64, String)>, groups: GroupsView, n: int, m: int)
    requires
        1 <= n <= m <= cols.len(),
        column_filled(cols.take(n), groups),
        !column_filled(cols.take(n - 1), groups),
        group_filled(groups, cols[n - 1].0),
        first_filled_column(cols.take(n), groups) == n - 1,
    ensures
        first_filled_column(cols.take(m), groups) == n - 1,
        column_filled(cols.take(m), groups),
    decreases m - n,
{
    if m > n {
        lemma_first_filled_prefix(cols, groups, n, m - 1);
        let t = cols.take(m);
        assert(t.drop_last() =~= cols.take(m - 1));
        if m == cols.len() {
            assert(cols.take(m) =~= cols);
        }
        assert(column_filled(t, groups)) by {
            let k = choose|k: int| 0 <= k < cols.take(m - 1).len() && group_filled(groups, #[trigger] cols.take(m - 1)[k].0);
            assert(t[k] == cols.take(m - 1)[k]);
        }
    }
}

impl App {
    /// Whether the interface is well formed (see `wf`), for callers that
    /// cannot be checked.
    pub fn is_well_formed(&self) -> (r: bool)
        ensures
            r == self.wf(),
    {
        (self.workflow_states.len() == 0 || self.selected_column < self.workflow_states.len())
            && self.create_popup_state.story_type_index < 3 && self.edit_popup_state.story_type_index < 3
            && self.epics.len() < usize::MAX
    }

    /// The interface for loaded stories at the time `now` (seconds since
    /// the epoch): the stories that stay on the board, grouped into the
    /// columns of the workflows' states, the first column with stories
    /// selected, and every popup closed.
    pub fn new_at(
        stories: Vec<Story>,
        workflows: Vec<Workflow>,
        search_query: String,
        next_page_token: Option<String>,
        now: i64,
    ) -> (r: App)
        ensures
            r.is_initial(stories.deep_view(), workflows.deep_view(), search_query@, next_page_token, now as int),
            r.wf(),
    {
        let states = flatten_states(&workflows);
        let kept = board_stories(stories, &states, now);
        let mut groups = StoryGroups::from_stories(&kept);
        groups.sort_each();
        groups.limit_done(&states);
        let (names, columns) = state_columns(&states);
        let selected_column = first_filled(&columns, &groups);
        let list = sort_stories_by_position(copy_stories(&kept));
        let total = kept.len();
        App {
            show_detail: false,
            show_state_selector: false,
            state_selector_index: 0,
            take_ownership_requested: false,
            create_story_requested: false,
            show_create_popup: false,
            create_popup_state: CreatePopupState::default(),
            edit_story_requested: false,
            show_edit_popup: false,
            edit_popup_state: EditPopupState::blank(),
            workflow_state_map: names,
            member_cache: Vec::new(),
            current_user_id: None,
            detail_scroll_offset: 0,
            should_quit: false,
            selected_column,
            selected_row: 0,
            stories_by_state: groups,
            workflow_states: columns,
            workflows,
            list_view_mode: false,
            all_stories_list: list,
            list_selected_index: 0,
            list_scroll_offset: 0,
            search_query,
            next_page_token,
            load_more_requested: false,
            is_loading: false,
            total_loaded_stories: total,
            git_context: GitContext { repo_type: GitRepoType::NotARepo, current_branch: None },
            show_git_popup: false,
            git_popup_state: GitBranchPopupState::blank(),
            git_branch_requested: false,
            show_git_result_popup: false,
            git_result_state: GitResultState::blank(),
            refresh_requested: false,
            epics: Vec::new(),
            selected_epic_filter: None,
            show_epic_selector: false,
            epic_selector_index: 0,
            all_stories_unfiltered: kept,
            show_help_popup: false,
            help_selected_index: 0,
            show_create_epic_popup: false,
            create_epic_popup_state: CreateEpicPopupState::blank(),
            create_epic_requested: false,
            show_comment_popup: false,
            comment_popup_state: CommentPopupState::for_story(0),
            add_comment_requested: false,
            clickable_urls: Vec::new(),
            detail_area: None,
            exit_directory: None,
        }
    }

    /// The interface for loaded stories, judged at the current time (see
    /// `new_at`). The repository is taken to be none until the caller sets
    /// the detected one.
    pub fn new(
        stories: Vec<Story>,
        workflows: Vec<Workflow>,
        search_query: String,
        next_page_token: Option<String>,
    ) -> (r: App)
        ensures
            exists|now: i64| r.is_initial(stories.deep_view(), workflows.deep_view(), search_query@, next_page_token, now as int),
            r.wf(),
    {
        let now = unix_now();
        App::new_at(stories, workflows, search_query, next_page_token, now)
    }
}

// ---------------------------------------------------------------------------
// Helpers on story lists

/// The stories of an epic (all of them when no epic is given), in order.
pub fn stories_of_epic(s: &Vec<Story>, epic: Option<i64>) -> (r: Vec<Story>)
    ensures
        r.deep_view() == of_epic(s.deep_view(), epic),
{
    let ghost v = s.deep_view();
    let mut r: Vec<Story> = Vec::new();
    let mut i: usize = 0;
    while i < s.len()
        invariant
            i <= v.len(),
            v == s.deep_view(),
            r.deep_view() == of_epic(v.take(i as int), epic),
        decreases v.len() - i,
    {
        assert(v.take(i + 1).drop_last() =~= v.take(i as int));
        assert(v.take(i + 1).last() == s@[i as int]@);
        let keep = match epic {
            Some(e) => s[i].epic_id == Some(e),
            None => true,
        };
        if keep {
            let ghost prev = r.deep_view();
            r.push(s[i].clone());
            assert(r.deep_view() =~= prev.push(s@[i as int]@));
        }
        i = i + 1;
    }
    assert(v.take(v.len() as int) =~= v);
    r
}

/// Whether a story with this id is in the list.
pub fn contains_story_id(s: &Vec<Story>, id: i64) -> (r: bool)
    ensures
        r == has_story_id(s.deep_view(), id),
{
    let ghost v = s.deep_view();
    let mut i: usize = 0;
    while i < s.len()
        invariant
            i <= v.len(),
            v == s.deep_view(),
            forall|k: int| 0 <= k < i ==> (#[trigger] v[k]).id != id,
        decreases v.len() - i,
    {
        if s[i].id == id {
            assert(v[i as int].id == id);
            return true;
        }
        i = i + 1;
    }
    false
}

/// Appends to `base`, in order, each story whose id is not yet there.
pub fn append_new_ids(base: &mut Vec<Story>, s: &Vec<Story>)
    ensures
        final(base).deep_view() == add_new_ids(old(base).deep_view(), s.deep_view()),
{
    let ghost b0 = base.deep_view();
    let ghost v = s.deep_view();
    let mut i: usize = 0;
    while i < s.len()
        invariant
            i <= v.len(),
            v == s.deep_view(),
            base.deep_view() == add_new_ids(b0, v.take(i as int)),
        decreases v.len() - i,
    {
        assert(v.take(i + 1).drop_last() =~= v.take(i as int));
        assert(v.take(i + 1).last() == s@[i as int]@);
        if !contains_story_id(base, s[i].id) {
            let ghost prev = base.deep_view();
            base.push(s[i].clone());
            assert(base.deep_view() =~= prev.push(s@[i as int]@));
        }
        i = i + 1;
    }
    assert(v.take(v.len() as int) =~= v);
}

/// Whether a click hits a link: the link's row counted from the area's top,
/// and its columns from the area's left edge.
pub open spec fn hits_link(u: ClickableUrl, area: Area, column: u16, row: u16) -> bool {
    u.row == row - area.y && area.x + u.start_col <= column && column <= area.x + u.end_col
}

/// The first link, from the `i`-th on, that a click hits.
pub open spec fn link_from(urls: Seq<ClickableUrl>, i: int, area: Area, column: u16, row: u16) -> Option<Seq<char>>
    decreases urls.len() - i,
{
    if i < 0 || i >= urls.len() {
        None
    } else if hits_link(urls[i], area, column, row) {
        Some(urls[i].url@)
    } else {
        link_from(urls, i + 1, area, column, row)
    }
}

/// Where a story list scrolls to keep the selected story in view: up to a
/// selection above the window, down to one below it, and never past the
/// last full window.
#[verifier::opaque]
pub open spec fn scrolled_offset(selected: usize, offset: usize, len: usize, visible: usize) -> usize {
    let moved = if selected < offset {
        selected as int
    } else if selected >= offset + visible {
        if selected >= visible - 1 {
            selected - (visible - 1)
        } else {
            0
        }
    } else {
        offset as int
    };
    let max_scroll = if len >= visible {
        len - visible
    } else {
        0
    };
    (if moved > max_scroll {
        max_scroll
    } else {
        moved
    }) as usize
}

/// The index after `i` among `n`, wrapping to 0: `(i + 1) % n`.
#[verifier::opaque]
pub open spec fn wrap_next(i: usize, n: int) -> usize {
    ((i + 1) % n) as usize
}

/// The index before `i` among `n`, wrapping to the last.
#[verifier::opaque]
pub open spec fn wrap_prev(i: usize, n: int) -> usize {
    if i == 0 {
        (n - 1) as usize
    } else {
        (i - 1) as usize
    }
}

/// One less, stopping at 0.
#[verifier::opaque]
pub open spec fn step_down(i: usize) -> usize {
    if i > 0 {
        (i - 1) as usize
    } else {
        0
    }
}

/// `(i + 1) % n`, computed without overflow.
pub fn next_index(i: usize, n: usize) -> (r: usize)
    requires
        n > 0,
    ensures
        r == wrap_next(i, n as int),
        r < n,
{
    reveal(wrap_next);
    let k = i % n;
    proof {
        vstd::arithmetic::div_mod::lemma_add_mod_noop_right(1, i as int, n as int);
    }
    if k + 1 == n {
        proof {
            vstd::arithmetic::div_mod::lemma_mod_self_0(n as int);
        }
        0
    } else {
        proof {
            vstd::arithmetic::div_mod::lemma_small_mod((k + 1) as nat, n as nat);
        }
        k + 1
    }
}

/// The index before `i` among `n`, wrapping to the last.
pub fn prev_index(i: usize, n: usize) -> (r: usize)
    requires
        n > 0,
    ensures
        r == wrap_prev(i, n as int),
        i < n ==> r < n,
{
    reveal(wrap_prev);
    if i == 0 {
        n - 1
    } else {
        i - 1
    }
}

/// One less, stopping at 0.
pub fn step_down_index(i: usize) -> (r: usize)
    ensures
        r == step_down(i),
{
    reveal(step_down);
    if i > 0 {
        i - 1
    } else {
        0
    }
}

/// The scroll offset that keeps the selected story in a window of
/// `visible` stories (see `scrolled_offset`).
pub fn scroll_offset(selected: usize, offset: usize, len: usize, visible: usize) -> (r: usize)
    requires
        visible > 0,
    ensures
        r == scrolled_offset(selected, offset, len, visible),
{
    reveal(scrolled_offset);
    let moved = if selected < offset {
        selected
    } else if selected - offset >= visible {
        selected.saturating_sub(visible - 1)
    } else {
        offset
    };
    let max_scroll = len.saturating_sub(visible);
    if moved > max_scroll {
        max_scroll
    } else {
        moved
    }
}

// ---------------------------------------------------------------------------
// Properties of the operations

/// No two stories share an id.
pub open spec fn distinct_ids(s: Seq<StoryView>) -> bool {
    forall|i: int, j: int| 0 <= i < j < s.len() ==> s[i].id != s[j].id
}

proof fn lemma_add_new_ids_prefix(base: Seq<StoryView>, s: Seq<StoryView>)
    ensures
        add_new_ids(base, s).len() >= base.len(),
        add_new_ids(base, s).take(base.len() as int) == base,
        forall|i: int| 0 <= i < s.len() ==> has_story_id(add_new_ids(base, s), #[trigger] s[i].id),
        forall|id: i64| has_story_id(base, id) ==> #[trigger] has_story_id(add_new_ids(base, s), id),
    decreases s.len(),
{
    if s.len() > 0 {
        let t = s.drop_last();
        lemma_add_new_ids_prefix(base, t);
        let b = add_new_ids(base, t);
        assert forall|i: int| 0 <= i < s.len() implies has_story_id(add_new_ids(base, s), #[trigger] s[i].id) by {
            if i < t.len() {
                assert(t[i] == s[i]);
                let w = choose|k: int| 0 <= k < b.len() && (#[trigger] b[k]).id == s[i].id;
                if !has_story_id(b, s.last().id) {
                    assert(b.push(s.last())[w] == b[w]);
                }
            } else {
                if !has_story_id(b, s.last().id) {
                    assert(b.push(s.last())[b.len() as int] == s.last());
                }
            }
        }
        assert forall|id: i64| has_story_id(base, id) implies #[trigger] has_story_id(add_new_ids(base, s), id) by {
            let w = choose|k: int| 0 <= k < b.len() && (#[trigger] b[k]).id == id;
            if !has_story_id(b, s.last().id) {
                assert(b.push(s.last())[w] == b[w]);
            }
        }
        if !has_story_id(b, s.last().id) {
            assert(b.push(s.last()).take(base.len() as int) =~= b.take(base.len() as int));
        }
    }
}

proof fn lemma_add_known_ids(base: Seq<StoryView>, s: Seq<StoryView>)
    requires
        forall|i: int| 0 <= i < s.len() ==> has_story_id(base, #[trigger] s[i].id),
    ensures
        add_new_ids(base, s) == base,
    decreases s.len(),
{
    if s.len() > 0 {
        let t = s.drop_last();
        assert forall|i: int| 0 <= i < t.len() implies has_story_id(base, #[trigger] t[i].id) by {
            assert(t[i] == s[i]);
        }
        lemma_add_known_ids(base, t);
        assert(has_story_id(base, s[s.len() - 1].id));
    }
}

/// Merging the same page twice leaves what merging it once left: every
/// story of the page is loaded after the first merge.
pub proof fn lemma_merge_twice(base: Seq<StoryView>, page: Seq<StoryView>)
    ensures
        add_new_ids(add_new_ids(base, page), page) == add_new_ids(base, page),
{
    lemma_add_new_ids_prefix(base, page);
    lemma_add_known_ids(add_new_ids(base, page), page);
}

/// Merging pages keeps every story id loaded once.
pub proof fn lemma_merge_distinct(base: Seq<StoryView>, page: Seq<StoryView>)
    requires
        distinct_ids(base),
    ensures
        distinct_ids(add_new_ids(base, page)),
    decreases page.len(),
{
    if page.len() > 0 {
        let t = page.drop_last();
        lemma_merge_distinct(base, t);
        let b = add_new_ids(base, t);
        if !has_story_id(b, page.last().id) {
            assert forall|i: int, j: int| 0 <= i < j < b.push(page.last()).len() implies b.push(page.last())[i].id
                != b.push(page.last())[j].id by {
                if j == b.len() {
                    assert(b.push(page.last())[i] == b[i]);
                }
            }
        }
    }
}

/// Stepping to the next index and back, or back and then on, returns to
/// where one was.
pub proof fn lemma_next_previous(i: usize, n: int)
    requires
        0 <= i < n,
        n <= usize::MAX,
    ensures
        wrap_prev(wrap_next(i, n), n) == i,
        wrap_next(wrap_prev(i, n), n) == i,
{
    reveal(wrap_next);
    reveal(wrap_prev);
    if i + 1 < n {
        vstd::arithmetic::div_mod::lemma_small_mod((i + 1) as nat, n as nat);
    } else {
        vstd::arithmetic::div_mod::lemma_mod_self_0(n);
    }
    if i == 0 {
        vstd::arithmetic::div_mod::lemma_mod_self_0(n);
    } else {
        vstd::arithmetic::div_mod::lemma_small_mod(i as nat, n as nat);
    }
}

/// The moves through a list of `n` keep the index among them.
pub proof fn lemma_moves_stay_in_range(i: usize, n: int)
    requires
        0 < n <= usize::MAX,
    ensures
        wrap_next(i, n) < n,
        i < n ==> wrap_prev(i, n) < n,
{
    reveal(wrap_next);
    reveal(wrap_prev);
    vstd::arithmetic::div_mod::lemma_mod_bound((i + 1) as int, n);
}

/// After scrolling, the selected story of the list is in the window.
pub proof fn lemma_scroll_shows_selection(selected: usize, offset: usize, len: usize, visible: usize)
    requires
        selected < len,
        visible > 0,
    ensures
        scrolled_offset(selected, offset, len, visible) <= selected,
        selected < scrolled_offset(selected, offset, len, visible) + visible,
{
    reveal(scrolled_offset);
}

/// Without an epic filter every loaded story is shown; with one, only
/// stories of that epic are.
pub proof fn lemma_epic_filter(s: Seq<StoryView>, e: i64)
    ensures
        of_epic(s, None) == s,
        forall|i: int| 0 <= i < of_epic(s, Some(e)).len() ==> (#[trigger] of_epic(s, Some(e))[i]).epic_id == Some(e),
    decreases s.len(),
{
    if s.len() > 0 {
        lemma_epic_filter(s.drop_last(), e);
        assert(s.drop_last().push(s.last()) =~= s);
    }
}

} // verus!

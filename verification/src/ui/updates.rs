//! Bringing a story that the service changed back into the interface.
use crate::api::{Story, StoryView};
use crate::ui::app::App;
use crate::ui::app::{board_groups, of_epic};
use crate::ui::board::{
    add_story, flatten_groups, group_index, group_lookup, group_view, sort_by_position, GroupsView, StoryGroups,
};
use crate::ui::paging::filtered_board;
use vstd::prelude::*;

verus! {

/// The index of the first story with an id, or -1.
pub open spec fn story_index(s: Seq<StoryView>, id: i64) -> int
    decreases s.len(),
{
    if s.len() == 0 {
        -1
    } else if s[0].id == id {
        0
    } else {
        let k = story_index(s.drop_first(), id);
        if k < 0 {
            -1
        } else {
            k + 1
        }
    }
}

/// The stories with the first one of an id replaced.
pub open spec fn replace_story(s: Seq<StoryView>, id: i64, x: StoryView) -> Seq<StoryView> {
    let k = story_index(s, id);
    if k >= 0 {
        s.update(k, x)
    } else {
        s
    }
}

/// The index of the first group holding a story of an id, or -1.
pub open spec fn group_with(g: GroupsView, id: i64) -> int
    decreases g.len(),
{
    if g.len() == 0 {
        -1
    } else if story_index(g[0].1, id) >= 0 {
        0
    } else {
        let k = group_with(g.drop_first(), id);
        if k < 0 {
            -1
        } else {
            k + 1
        }
    }
}

/// The groups with the story of an id taken out of the first group that
/// holds it (the group stays, even when empty).
pub open spec fn without_story(g: GroupsView, id: i64) -> GroupsView {
    let k = group_with(g, id);
    if k >= 0 {
        g.update(k, (g[k].0, g[k].1.remove(story_index(g[k].1, id))))
    } else {
        g
    }
}

/// The state of the group the story of an id was taken from.
pub open spec fn story_state(g: GroupsView, id: i64) -> Option<i64> {
    let k = group_with(g, id);
    if k >= 0 {
        Some(g[k].0)
    } else {
        None
    }
}

/// The groups with the story of an id replaced in one state's group.
pub open spec fn replace_in_group(g: GroupsView, state: i64, id: i64, x: StoryView) -> GroupsView {
    let k = group_index(g, state);
    if k >= 0 {
        g.update(k, (g[k].0, replace_story(g[k].1, id, x)))
    } else {
        g
    }
}

proof fn lemma_story_index_bounds(s: Seq<StoryView>, id: i64)
    ensures
        -1 <= story_index(s, id) < s.len(),
        story_index(s, id) >= 0 ==> s[story_index(s, id)].id == id,
        story_index(s, id) < 0 ==> forall|i: int| 0 <= i < s.len() ==> (#[trigger] s[i]).id != id,
        forall|i: int| 0 <= i < story_index(s, id) ==> (#[trigger] s[i]).id != id,
    decreases s.len(),
{
    if s.len() > 0 && s[0].id != id {
        lemma_story_index_bounds(s.drop_first(), id);
        assert forall|i: int| 0 < i < s.len() implies s[i] == s.drop_first()[i - 1] by {}
    }
}

proof fn lemma_group_with_bounds(g: GroupsView, id: i64)
    ensures
        -1 <= group_with(g, id) < g.len(),
        group_with(g, id) >= 0 ==> story_index(g[group_with(g, id)].1, id) >= 0,
        group_with(g, id) < 0 ==> forall|i: int| 0 <= i < g.len() ==> story_index(#[trigger] g[i].1, id) < 0,
        forall|i: int| 0 <= i < group_with(g, id) ==> story_index(#[trigger] g[i].1, id) < 0,
    decreases g.len(),
{
    if g.len() > 0 && story_index(g[0].1, id) < 0 {
        lemma_group_with_bounds(g.drop_first(), id);
        assert forall|i: int| 0 < i < g.len() implies g[i] == g.drop_first()[i - 1] by {}
    }
}

/// The index of the first story with an id.
pub fn find_story(s: &Vec<Story>, id: i64) -> (r: Option<usize>)
    ensures
        match r {
            Some(k) => k as int == story_index(s.deep_view(), id),
            None => story_index(s.deep_view(), id) < 0,
        },
{
    let ghost v = s.deep_view();
    proof {
        lemma_story_index_bounds(v, id);
    }
    let mut i: usize = 0;
    while i < s.len()
        invariant
            i <= v.len(),
            v == s.deep_view(),
            -1 <= story_index(v, id) < v.len(),
            story_index(v, id) >= 0 ==> v[story_index(v, id)].id == id,
            story_index(v, id) < 0 ==> forall|j: int| 0 <= j < v.len() ==> (#[trigger] v[j]).id != id,
            forall|j: int| 0 <= j < story_index(v, id) ==> (#[trigger] v[j]).id != id,
            forall|j: int| 0 <= j < i ==> (#[trigger] v[j]).id != id,
        decreases v.len() - i,
    {
        if s[i].id == id {
            assert(v[i as int].id == id);
            return Some(i);
        }
        i = i + 1;
    }
    None
}

/// Replaces the first story with the id, if any.
pub fn replace_in(s: &mut Vec<Story>, id: i64, x: &Story)
    ensures
        final(s).deep_view() == replace_story(old(s).deep_view(), id, x@),
{
    proof {
        lemma_story_index_bounds(s.deep_view(), id);
    }
    match find_story(s, id) {
        Some(k) => {
            let ghost before = s.deep_view();
            assert(before.len() == s@.len());
            s.set(k, x.clone());
            assert(s.deep_view() =~= before.update(k as int, x@));
        },
        None => {},
    }
}

/// The position of the first group holding a story of the id, and the
/// story's position there.
fn find_in_groups(g: &StoryGroups, id: i64) -> (r: Option<(usize, usize)>)
    ensures
        match r {
            Some((k, j)) => k as int == group_with(g@, id) && j as int == story_index(g@[k as int].1, id),
            None => group_with(g@, id) < 0,
        },
{
    proof {
        lemma_group_with_bounds(g@, id);
    }
    let mut i: usize = 0;
    while i < g.groups.len()
        invariant
            i <= g@.len(),
            g@.len() == g.groups@.len(),
            forall|j: int| 0 <= j < i ==> story_index(#[trigger] g@[j].1, id) < 0,
        decreases g@.len() - i,
    {
        assert(g@[i as int].1 == g.groups@[i as int].1.deep_view());
        match find_story(&g.groups[i].1, id) {
            Some(j) => {
                proof {
                    lemma_group_with_prefix(g@, id, i as int);
                }
                return Some((i, j));
            },
            None => {},
        }
        i = i + 1;
    }
    proof {
        lemma_group_with_none(g@, id);
    }
    None
}

proof fn lemma_group_with_prefix(g: GroupsView, id: i64, i: int)
    requires
        0 <= i < g.len(),
        forall|j: int| 0 <= j < i ==> story_index(#[trigger] g[j].1, id) < 0,
        story_index(g[i].1, id) >= 0,
    ensures
        group_with(g, id) == i,
    decreases i,
{
    if i > 0 {
        assert forall|j: int| 0 <= j < i - 1 implies story_index(#[trigger] g.drop_first()[j].1, id) < 0 by {
            assert(g.drop_first()[j] == g[j + 1]);
        }
        assert(g.drop_first()[i - 1] == g[i]);
        lemma_group_with_prefix(g.drop_first(), id, i - 1);
    }
}

proof fn lemma_group_with_none(g: GroupsView, id: i64)
    requires
        forall|j: int| 0 <= j < g.len() ==> story_index(#[trigger] g[j].1, id) < 0,
    ensures
        group_with(g, id) < 0,
    decreases g.len(),
{
    if g.len() > 0 {
        assert forall|j: int| 0 <= j < g.len() - 1 implies story_index(#[trigger] g.drop_first()[j].1, id) < 0 by {
            assert(g.drop_first()[j] == g[j + 1]);
        }
        lemma_group_with_none(g.drop_first(), id);
    }
}

/// Takes the story of an id out of the first group holding it; gives that
/// group's state.
pub fn take_story_out(g: StoryGroups, id: i64) -> (r: (StoryGroups, Option<i64>))
    ensures
        r.0@ == without_story(g@, id),
        r.1 == story_state(g@, id),
{
    proof {
        lemma_group_with_bounds(g@, id);
    }
    match find_in_groups(&g, id) {
        Some((k, j)) => {
            let ghost gv = g@;
            let mut g = g;
            let (state, mut v) = g.groups.remove(k);
            assert(group_view((state, v)) == gv[k as int]);
            proof {
                lemma_story_index_bounds(v.deep_view(), id);
            }
            let ghost vv = v.deep_view();
            v.remove(j);
            assert(v.deep_view() =~= vv.remove(j as int));
            let ghost rest = g.groups@;
            g.groups.insert(k, (state, v));
            assert(g.groups@ =~= rest.insert(k as int, (state, v)));
            assert(g@ =~= gv.update(k as int, (gv[k as int].0, gv[k as int].1.remove(j as int))));
            (g, Some(state))
        },
        None => (g, None),
    }
}

/// Replaces the story of an id in one state's group.
pub fn replace_in_state(g: StoryGroups, state: i64, id: i64, x: &Story) -> (r: StoryGroups)
    ensures
        r@ == replace_in_group(g@, state, id, x@),
{
    let ghost gv = g@;
    proof {
        crate::ui::board::lemma_group_index(gv, state);
    }
    match g.index_of(state) {
        Some(k) => {
            let mut g = g;
            let (sid, mut v) = g.groups.remove(k);
            assert(group_view((sid, v)) == gv[k as int]);
            replace_in(&mut v, id, x);
            let ghost rest = g.groups@;
            g.groups.insert(k, (sid, v));
            assert(g.groups@ =~= rest.insert(k as int, (sid, v)));
            assert(g@ =~= gv.update(k as int, (gv[k as int].0, replace_story(gv[k as int].1, id, x@))));
            g
        },
        None => g,
    }
}

/// The selected row after a story left the group of `old_state`: back at
/// the top when that is the selected column's state and the row is no
/// longer within the group.
pub open spec fn row_after_move(a: App, groups: GroupsView, old_state: Option<i64>) -> usize {
    match old_state {
        Some(s) => if a.selected_column < a.workflow_states@.len() && a.workflow_states@[a.selected_column as int].0
            == s && group_lookup(groups, s) is Some && a.selected_row >= group_lookup(groups, s)->0.len() {
            0
        } else {
            a.selected_row
        },
        None => a.selected_row,
    }
}

fn row_after(app: &App, groups: &StoryGroups, old_state: Option<i64>) -> (r: usize)
    ensures
        r == row_after_move(*app, groups@, old_state),
{
    match old_state {
        Some(s) => {
            if app.selected_column < app.workflow_states.len() && app.workflow_states[app.selected_column].0 == s {
                match groups.get(s) {
                    Some(v) => if app.selected_row >= v.len() {
                        0
                    } else {
                        app.selected_row
                    },
                    None => app.selected_row,
                }
            } else {
                app.selected_row
            }
        },
        None => app.selected_row,
    }
}

/// `b` is `a` with the board shown again under the epic filter: the
/// loaded stories, the groups, the list and its count are new, the
/// selection is back at the first column, row and list entry, and nothing
/// else changed.
#[verifier::opaque]
pub open spec fn rebuilt_under_filter(a: App, b: App) -> bool {
    b == (App {
        all_stories_unfiltered: b.all_stories_unfiltered,
        stories_by_state: b.stories_by_state,
        all_stories_list: b.all_stories_list,
        total_loaded_stories: b.total_loaded_stories,
        selected_column: 0,
        selected_row: 0,
        list_selected_index: 0,
        list_scroll_offset: 0,
        ..a
    })
}

impl App {
    /// Brings in a story that moved to another state: it replaces its old
    /// copy among the loaded stories and in the list, leaves the group it
    /// was in and joins the end of its new state's group; when it left the
    /// selected column and the selected row fell beyond that column, the
    /// row goes back to the top.
    #[verifier::spinoff_prover]
    pub fn update_story_state(&mut self, story_id: i64, updated_story: Story)
        ensures
            final(self).all_stories_unfiltered.deep_view() == replace_story(
                old(self).all_stories_unfiltered.deep_view(),
                story_id,
                updated_story@,
            ),
            final(self).stories_by_state@ == add_story(
                without_story(old(self).stories_by_state@, story_id),
                updated_story@,
            ),
            final(self).all_stories_list.deep_view() == replace_story(
                old(self).all_stories_list.deep_view(),
                story_id,
                updated_story@,
            ),
            final(self).selected_row == row_after_move(
                *old(self),
                final(self).stories_by_state@,
                story_state(old(self).stories_by_state@, story_id),
            ),
            *final(self) == (App {
                all_stories_unfiltered: final(self).all_stories_unfiltered,
                stories_by_state: final(self).stories_by_state,
                all_stories_list: final(self).all_stories_list,
                selected_row: final(self).selected_row,
                ..*old(self)
            }),
    {
        let mut unfiltered: Vec<Story> = Vec::new();
        std::mem::swap(&mut unfiltered, &mut self.all_stories_unfiltered);
        replace_in(&mut unfiltered, story_id, &updated_story);
        let mut groups = StoryGroups::new();
        std::mem::swap(&mut groups, &mut self.stories_by_state);
        let (mut groups, old_state) = take_story_out(groups, story_id);
        groups.add(updated_story.clone());
        let mut list: Vec<Story> = Vec::new();
        std::mem::swap(&mut list, &mut self.all_stories_list);
        replace_in(&mut list, story_id, &updated_story);
        let row = row_after(self, &groups, old_state);
        self.all_stories_unfiltered = unfiltered;
        self.stories_by_state = groups;
        self.all_stories_list = list;
        self.selected_row = row;
    }

    /// Brings in a story whose owners changed: it replaces its old copy
    /// among the loaded stories, in its state's group and in the list.
    #[verifier::spinoff_prover]
    pub fn update_story_ownership(&mut self, story_id: i64, updated_story: Story)
        ensures
            final(self).all_stories_unfiltered.deep_view() == replace_story(
                old(self).all_stories_unfiltered.deep_view(),
                story_id,
                updated_story@,
            ),
            final(self).stories_by_state@ == replace_in_group(
                old(self).stories_by_state@,
                updated_story.workflow_state_id,
                story_id,
                updated_story@,
            ),
            final(self).all_stories_list.deep_view() == replace_story(
                old(self).all_stories_list.deep_view(),
                story_id,
                updated_story@,
            ),
            *final(self) == (App {
                all_stories_unfiltered: final(self).all_stories_unfiltered,
                stories_by_state: final(self).stories_by_state,
                all_stories_list: final(self).all_stories_list,
                ..*old(self)
            }),
    {
        let mut unfiltered: Vec<Story> = Vec::new();
        std::mem::swap(&mut unfiltered, &mut self.all_stories_unfiltered);
        replace_in(&mut unfiltered, story_id, &updated_story);
        let mut groups = StoryGroups::new();
        std::mem::swap(&mut groups, &mut self.stories_by_state);
        let groups = replace_in_state(groups, updated_story.workflow_state_id, story_id, &updated_story);
        let mut list: Vec<Story> = Vec::new();
        std::mem::swap(&mut list, &mut self.all_stories_list);
        replace_in(&mut list, story_id, &updated_story);
        self.all_stories_unfiltered = unfiltered;
        self.stories_by_state = groups;
        self.all_stories_list = list;
    }

    /// Brings in an edited story while an epic filter is set: it replaces
    /// its old copy among the loaded stories, and the board is shown again
    /// under the filter.
    #[verifier::spinoff_prover]
    fn update_filtered_story(&mut self, story_id: i64, updated_story: Story)
        ensures
            final(self).shows_filtered(
                replace_story(old(self).all_stories_unfiltered.deep_view(), story_id, updated_story@),
            ),
            rebuilt_under_filter(*old(self), *final(self)),
    {
        proof {
            reveal(App::shows_filtered);
            reveal(rebuilt_under_filter);
        }
        let mut unfiltered: Vec<Story> = Vec::new();
        std::mem::swap(&mut unfiltered, &mut self.all_stories_unfiltered);
        replace_in(&mut unfiltered, story_id, &updated_story);
        let (groups, list) = filtered_board(&unfiltered, self.selected_epic_filter, &self.workflows);
        let total = list.len();
        self.all_stories_unfiltered = unfiltered;
        self.stories_by_state = groups;
        self.all_stories_list = list;
        self.total_loaded_stories = total;
        self.selected_column = 0;
        self.selected_row = 0;
        self.list_selected_index = 0;
        self.list_scroll_offset = 0;
    }

    /// Brings in a story whose name, description, type or epic changed:
    /// with an epic filter set, as `update_filtered_story` does (the story
    /// may have left or joined the filter); else as for a change of owners.
    #[verifier::spinoff_prover]
    #[verifier::rlimit(40)]
    pub fn update_story_details(&mut self, story_id: i64, updated_story: Story)
        ensures
            old(self).selected_epic_filter.is_some() ==> final(self).shows_filtered(
                replace_story(old(self).all_stories_unfiltered.deep_view(), story_id, updated_story@),
            ),
            old(self).selected_epic_filter.is_none() ==> final(self).all_stories_unfiltered.deep_view()
                == replace_story(old(self).all_stories_unfiltered.deep_view(), story_id, updated_story@),
            old(self).selected_epic_filter.is_none() ==> final(self).stories_by_state@ == replace_in_group(
                old(self).stories_by_state@,
                updated_story.workflow_state_id,
                story_id,
                updated_story@,
            ),
            old(self).selected_epic_filter.is_none() ==> final(self).all_stories_list.deep_view()
                == replace_story(old(self).all_stories_list.deep_view(), story_id, updated_story@),
            old(self).selected_epic_filter.is_none() ==> *final(self) == (App {
                all_stories_unfiltered: final(self).all_stories_unfiltered,
                stories_by_state: final(self).stories_by_state,
                all_stories_list: final(self).all_stories_list,
                ..*old(self)
            }),
            old(self).selected_epic_filter.is_some() ==> rebuilt_under_filter(*old(self), *final(self)),
    {
        if self.selected_epic_filter.is_some() {
            self.update_filtered_story(story_id, updated_story);
        } else {
            self.update_story_ownership(story_id, updated_story);
        }
    }
}

} // verus!

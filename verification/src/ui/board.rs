//! The board's arrangement of stories: ordering by position, grouping by
//! workflow state, the column list, and which stories stay on the board.
use vstd::prelude::*;
use crate::api::{Story, StoryView, Workflow, WorkflowState, WorkflowView, copy_stories};
use crate::git::operations::all_states;
use crate::timekeeping::{in_current_week, is_current_week};

verus! {

broadcast use vstd::seq_lib::group_seq_properties;

// ---------------------------------------------------------------------------
// Ordering by position

/// Inserts `x` after every element whose key is not larger, keeping the
/// sequence ordered if it was: the step of a stable insertion sort.
pub open spec fn insert_by<T>(s: Seq<T>, x: T, key: spec_fn(T) -> i64) -> Seq<T>
    decreases s.len(),
{
    if s.len() == 0 {
        seq![x]
    } else if key(s.last()) <= key(x) {
        s.push(x)
    } else {
        insert_by(s.drop_last(), x, key).push(s.last())
    }
}

/// The stable sort of a sequence by an integer key.
pub open spec fn sort_by<T>(s: Seq<T>, key: spec_fn(T) -> i64) -> Seq<T>
    decreases s.len(),
{
    if s.len() == 0 {
        Seq::empty()
    } else {
        insert_by(sort_by(s.drop_last(), key), s.last(), key)
    }
}

/// Whether a sequence is ordered by the key.
pub open spec fn sorted_by<T>(s: Seq<T>, key: spec_fn(T) -> i64) -> bool {
    forall|i: int, j: int| 0 <= i <= j < s.len() ==> key(s[i]) <= key(s[j])
}

/// A story's position.
pub open spec fn story_position(s: StoryView) -> i64 {
    s.position
}

/// Stories in position order, stories of equal position kept in their order.
pub open spec fn sort_by_position(s: Seq<StoryView>) -> Seq<StoryView> {
    sort_by(s, |x: StoryView| story_position(x))
}

proof fn lemma_insert_by_at<T>(s: Seq<T>, x: T, key: spec_fn(T) -> i64, j: int)
    requires
        0 <= j <= s.len(),
        forall|k: int| j <= k < s.len() ==> key(#[trigger] s[k]) > key(x),
        j == 0 || key(s[j - 1]) <= key(x),
    ensures
        insert_by(s, x, key) == s.take(j).push(x) + s.skip(j),
    decreases s.len() - j,
{
    if s.len() == 0 {
        assert(s.take(j).push(x) + s.skip(j) =~= seq![x]);
    } else if j == s.len() {
        assert(s.take(j).push(x) + s.skip(j) =~= s.push(x));
    } else {
        let t = s.drop_last();
        assert forall|k: int| j <= k < t.len() implies key(#[trigger] t[k]) > key(x) by {
            assert(t[k] == s[k]);
        }
        if j > 0 {
            assert(t[j - 1] == s[j - 1]);
        }
        lemma_insert_by_at(t, x, key, j);
        assert(t.take(j).push(x) + t.skip(j) + seq![s.last()] =~= s.take(j).push(x) + s.skip(j));
    }
}

/// Sorting by a key leaves the sequence ordered by it.
pub proof fn lemma_sort_by_sorted<T>(s: Seq<T>, key: spec_fn(T) -> i64)
    ensures
        sorted_by(sort_by(s, key), key),
        sort_by(s, key).to_multiset() == s.to_multiset(),
        sort_by(s, key).len() == s.len(),
    decreases s.len(),
{
    if s.len() > 0 {
        lemma_sort_by_sorted(s.drop_last(), key);
        lemma_insert_by_sorted(sort_by(s.drop_last(), key), s.last(), key);
        assert(s =~= s.drop_last().push(s.last()));

    } else {
        assert(s.to_multiset() =~= vstd::multiset::Multiset::empty());
    }
}

proof fn lemma_insert_by_sorted<T>(s: Seq<T>, x: T, key: spec_fn(T) -> i64)
    requires
        sorted_by(s, key),
    ensures
        sorted_by(insert_by(s, x, key), key),
        insert_by(s, x, key).to_multiset() == s.to_multiset().insert(x),
        insert_by(s, x, key).len() == s.len() + 1,
    decreases s.len(),
{

    if s.len() == 0 {
        assert(seq![x] =~= Seq::<T>::empty().push(x));
    } else if key(s.last()) <= key(x) {
    } else {
        let t = s.drop_last();
        assert(sorted_by(t, key));
        lemma_insert_by_sorted(t, x, key);
        let u = insert_by(t, x, key);
        assert(s =~= t.push(s.last()));
        assert forall|i: int, j: int| 0 <= i <= j < u.push(s.last()).len() implies key(
            #[trigger] u.push(s.last())[i],
        ) <= key(#[trigger] u.push(s.last())[j]) by {
            if j == u.len() && i < u.len() {
                assert(u.to_multiset().count(u[i]) > 0);
                assert(t.push(x).to_multiset() =~= t.to_multiset().insert(x));
                assert(t.push(x).to_multiset().count(u[i]) > 0);
                assert(t.push(x).contains(u[i]));
                let m = choose|m: int| 0 <= m < t.push(x).len() && t.push(x)[m] == u[i];
                if m < t.len() {
                    assert(t[m] == s[m]);
                }
            }
        }
    }
}

/// Inserts a story after every story whose position is not larger.
fn insert_story(v: &mut Vec<Story>, x: Story)
    ensures
        final(v).deep_view() == insert_by(old(v).deep_view(), x@, |y: StoryView| story_position(y)),
{
    let ghost key = |y: StoryView| story_position(y);
    let ghost s = v.deep_view();
    let mut j: usize = v.len();
    while j > 0 && v[j - 1].position > x.position
        invariant
            j <= v@.len(),
            s == v.deep_view(),
            key == (|y: StoryView| story_position(y)),
            forall|k: int| j <= k < s.len() ==> key(#[trigger] s[k]) > key(x@),
        decreases j,
    {
        assert(s[j - 1] == v@[j - 1]@);
        assert(key(s[j - 1]) == s[j - 1].position);
        j = j - 1;
    }
    assert(j > 0 ==> s[j - 1] == v@[j - 1]@);
    proof {
        lemma_insert_by_at(s, x@, key, j as int);
    }
    v.insert(j, x);
    assert(v.deep_view() =~= s.take(j as int).push(x@) + s.skip(j as int));
}

/// The stories in position order; stories of equal position keep their order.
pub fn sort_stories_by_position(v: Vec<Story>) -> (r: Vec<Story>)
    ensures
        r.deep_view() == sort_by_position(v.deep_view()),
{
    let mut r: Vec<Story> = Vec::new();
    let ghost s = v.deep_view();
    let mut i: usize = 0;
    while i < v.len()
        invariant
            i <= v@.len(),
            s == v.deep_view(),
            r.deep_view() == sort_by_position(s.take(i as int)),
        decreases v@.len() - i,
    {
        let x = v[i].clone();
        insert_story(&mut r, x);
        assert(s.take(i + 1).drop_last() =~= s.take(i as int));
        i = i + 1;
    }
    assert(s.take(v@.len() as int) =~= s);
    r
}

// ---------------------------------------------------------------------------
// Workflow states

/// All states of the workflows, workflow by workflow.
pub fn flatten_states(workflows: &Vec<Workflow>) -> (r: Vec<WorkflowState>)
    ensures
        r@ == all_states(workflows.deep_view()),
{
    let ghost ws = workflows.deep_view();
    let mut r: Vec<WorkflowState> = Vec::new();
    let mut i: usize = 0;
    assert(ws.take(0) =~= Seq::<WorkflowView>::empty());
    while i < workflows.len()
        invariant
            i <= ws.len(),
            ws == workflows.deep_view(),
            r@ == all_states(ws.take(i as int)),
        decreases ws.len() - i,
    {
        let states = &workflows[i].states;
        let ghost before = r@;
        let mut j: usize = 0;
        while j < states.len()
            invariant
                j <= states@.len(),
                r@ == before + states@.take(j as int),
            decreases states@.len() - j,
        {
            r.push(states[j].clone());
            assert(states@.take(j + 1) =~= states@.take(j as int).push(states@[j as int]));
            j = j + 1;
        }
        proof {
            crate::git::operations::lemma_all_states_take(ws, i as int);
            assert(states@.take(states@.len() as int) =~= states@);
        }
        i = i + 1;
    }
    assert(ws.take(ws.len() as int) =~= ws);
    r
}

/// Whether the state with this id is a "done" state: the first state with
/// the id has type `done`; an unknown id is not done.
pub open spec fn state_is_done(states: Seq<WorkflowState>, id: i64) -> bool
    decreases states.len(),
{
    if states.len() == 0 {
        false
    } else if states[0].id == id {
        states[0].state_type@ == "done"@
    } else {
        state_is_done(states.drop_first(), id)
    }
}

/// Whether the state with this id is a "done" state.
pub fn is_done_state(state_id: i64, states: &Vec<WorkflowState>) -> (r: bool)
    ensures
        r == state_is_done(states@, state_id),
{
    let mut i: usize = 0;
    while i < states.len()
        invariant
            i <= states@.len(),
            state_is_done(states@, state_id) == state_is_done(states@.skip(i as int), state_id),
        decreases states@.len() - i,
    {
        assert(states@.skip(i as int)[0] == states@[i as int]);
        assert(states@.skip(i as int).drop_first() =~= states@.skip(i + 1));
        if states[i].id == state_id {
            return states[i].state_type == String::from_str("done");
        }
        i = i + 1;
    }
    false
}

/// The known states by id, each id once in order of first appearance, with
/// the name and position of its last appearance: `(id, name, position)`.
pub open spec fn state_table(states: Seq<WorkflowState>) -> Seq<(i64, String, i64)>
    decreases states.len(),
{
    if states.len() == 0 {
        Seq::empty()
    } else {
        upsert_state(state_table(states.drop_last()), states.last())
    }
}

/// The index of the entry with this id, or -1.
pub open spec fn table_index(t: Seq<(i64, String, i64)>, id: i64) -> int
    decreases t.len(),
{
    if t.len() == 0 {
        -1
    } else if t.last().0 == id {
        t.len() - 1
    } else {
        table_index(t.drop_last(), id)
    }
}

/// The table with the state's entry written or added.
pub open spec fn upsert_state(t: Seq<(i64, String, i64)>, s: WorkflowState) -> Seq<(i64, String, i64)> {
    let k = table_index(t, s.id);
    if k >= 0 {
        t.update(k, (s.id, s.name, s.position))
    } else {
        t.push((s.id, s.name, s.position))
    }
}

proof fn lemma_table_index(t: Seq<(i64, String, i64)>, id: i64)
    ensures
        -1 <= table_index(t, id) < t.len(),
        table_index(t, id) >= 0 ==> t[table_index(t, id)].0 == id,
        table_index(t, id) < 0 ==> forall|k: int| 0 <= k < t.len() ==> (#[trigger] t[k]).0 != id,
    decreases t.len(),
{
    if t.len() > 0 {
        lemma_table_index(t.drop_last(), id);
        if table_index(t, id) < 0 {
            assert forall|k: int| 0 <= k < t.len() implies (#[trigger] t[k]).0 != id by {
                if k < t.len() - 1 {
                    assert(t[k] == t.drop_last()[k]);
                }
            }
        }
    }
}

fn find_entry(t: &Vec<(i64, String, i64)>, id: i64) -> (r: Option<usize>)
    ensures
        match r {
            Some(k) => k as int == table_index(t@, id),
            None => table_index(t@, id) < 0,
        },
{
    let mut i: usize = t.len();
    while i > 0
        invariant
            i <= t@.len(),
            table_index(t@, id) == table_index(t@.take(i as int), id),
        decreases i,
    {
        assert(t@.take(i as int).drop_last() =~= t@.take(i - 1));
        assert(t@.take(i as int).last() == t@[i - 1]);
        if t[i - 1].0 == id {
            return Some(i - 1);
        }
        i = i - 1;
    }
    None
}

/// A position-key for table entries.
pub open spec fn entry_position(e: (i64, String, i64)) -> i64 {
    e.2
}

fn insert_entry(v: &mut Vec<(i64, String, i64)>, x: (i64, String, i64))
    ensures
        final(v)@ == insert_by(old(v)@, x, |e: (i64, String, i64)| entry_position(e)),
{
    let ghost key = |e: (i64, String, i64)| entry_position(e);
    let ghost s = v@;
    let mut j: usize = v.len();
    while j > 0 && v[j - 1].2 > x.2
        invariant
            j <= v@.len(),
            s == v@,
            key == (|e: (i64, String, i64)| entry_position(e)),
            forall|k: int| j <= k < s.len() ==> key(#[trigger] s[k]) > key(x),
        decreases j,
    {
        j = j - 1;
    }
    proof {
        lemma_insert_by_at(s, x, key, j as int);
    }
    v.insert(j, x);
    assert(v@ =~= s.take(j as int).push(x) + s.skip(j as int));
}

/// The columns of the board: `(id, name)` of every known state, ordered by
/// position, states of equal position in order of first appearance.
pub open spec fn column_order(states: Seq<WorkflowState>) -> Seq<(i64, String)> {
    sort_by(state_table(states), |e: (i64, String, i64)| entry_position(e)).map_values(
        |e: (i64, String, i64)| (e.0, e.1),
    )
}

/// The names of the known states by id, in order of first appearance.
pub open spec fn name_table(states: Seq<WorkflowState>) -> Seq<(i64, String)> {
    state_table(states).map_values(|e: (i64, String, i64)| (e.0, e.1))
}

/// Builds the state table and the column order from the states.
pub fn state_columns(states: &Vec<WorkflowState>) -> (r: (Vec<(i64, String)>, Vec<(i64, String)>))
    ensures
        r.0@ == name_table(states@),
        r.1@ == column_order(states@),
{
    let mut t: Vec<(i64, String, i64)> = Vec::new();
    let mut i: usize = 0;
    while i < states.len()
        invariant
            i <= states@.len(),
            t@ == state_table(states@.take(i as int)),
        decreases states@.len() - i,
    {
        let s = &states[i];
        proof {
            assert(states@.take(i + 1).drop_last() =~= states@.take(i as int));
            lemma_table_index(t@, s.id);
        }
        match find_entry(&t, s.id) {
            Some(k) => {
                t.set(k, (s.id, s.name.clone(), s.position));
            },
            None => {
                t.push((s.id, s.name.clone(), s.position));
            },
        }
        i = i + 1;
    }
    assert(states@.take(states@.len() as int) =~= states@);
    let mut names: Vec<(i64, String)> = Vec::new();
    let mut sorted: Vec<(i64, String, i64)> = Vec::new();
    let mut k: usize = 0;
    while k < t.len()
        invariant
            k <= t@.len(),
            names@ == t@.take(k as int).map_values(|e: (i64, String, i64)| (e.0, e.1)),
            sorted@ == sort_by(t@.take(k as int), |e: (i64, String, i64)| entry_position(e)),
        decreases t@.len() - k,
    {
        names.push((t[k].0, t[k].1.clone()));
        insert_entry(&mut sorted, (t[k].0, t[k].1.clone(), t[k].2));
        assert(t@.take(k + 1).drop_last() =~= t@.take(k as int));
        assert(t@.take(k + 1).map_values(|e: (i64, String, i64)| (e.0, e.1)) =~= t@.take(k as int).map_values(
            |e: (i64, String, i64)| (e.0, e.1),
        ).push((t@[k as int].0, t@[k as int].1)));
        k = k + 1;
    }
    assert(t@.take(t@.len() as int) =~= t@);
    let mut columns: Vec<(i64, String)> = Vec::new();
    let mut m: usize = 0;
    while m < sorted.len()
        invariant
            m <= sorted@.len(),
            columns@ == sorted@.take(m as int).map_values(|e: (i64, String, i64)| (e.0, e.1)),
        decreases sorted@.len() - m,
    {
        columns.push((sorted[m].0, sorted[m].1.clone()));
        assert(sorted@.take(m + 1).map_values(|e: (i64, String, i64)| (e.0, e.1)) =~= sorted@.take(m as int).map_values(
            |e: (i64, String, i64)| (e.0, e.1),
        ).push((sorted@[m as int].0, sorted@[m as int].1)));
        m = m + 1;
    }
    assert(sorted@.take(sorted@.len() as int) =~= sorted@);
    (names, columns)
}

// ---------------------------------------------------------------------------
// Stories grouped by workflow state

/// A grouping's value: `(state id, stories)` per state.
pub type GroupsView = Seq<(i64, Seq<StoryView>)>;

/// Stories grouped by workflow state, groups in order of creation.
pub struct StoryGroups {
    pub groups: Vec<(i64, Vec<Story>)>,
}

pub open spec fn group_view(p: (i64, Vec<Story>)) -> (i64, Seq<StoryView>) {
    (p.0, p.1.deep_view())
}

impl View for StoryGroups {
    type V = GroupsView;

    open spec fn view(&self) -> GroupsView {
        self.groups@.map_values(|p: (i64, Vec<Story>)| group_view(p))
    }
}

/// The index of the group of a state, or -1.
pub open spec fn group_index(g: GroupsView, id: i64) -> int
    decreases g.len(),
{
    if g.len() == 0 {
        -1
    } else if g.last().0 == id {
        g.len() - 1
    } else {
        group_index(g.drop_last(), id)
    }
}

/// The stories of a state's group, if it has one.
pub open spec fn group_lookup(g: GroupsView, id: i64) -> Option<Seq<StoryView>> {
    let k = group_index(g, id);
    if k >= 0 {
        Some(g[k].1)
    } else {
        None
    }
}

/// No two groups share a state.
pub open spec fn distinct_groups(g: GroupsView) -> bool {
    forall|i: int, j: int| 0 <= i < j < g.len() ==> g[i].0 != g[j].0
}

/// The groups with the group of one state sorted by position.
pub open spec fn sort_one_group(g: GroupsView, id: i64) -> GroupsView {
    let k = group_index(g, id);
    if 0 <= k < g.len() {
        g.update(k, (g[k].0, sort_by_position(g[k].1)))
    } else {
        g
    }
}

/// The grouping with a story appended to its state's group, which is
/// created at the end when missing.
pub open spec fn add_story(g: GroupsView, x: StoryView) -> GroupsView {
    let k = group_index(g, x.workflow_state_id);
    if k >= 0 {
        g.update(k, (g[k].0, g[k].1.push(x)))
    } else {
        g.push((x.workflow_state_id, seq![x]))
    }
}

/// The stories grouped by state, each group in the stories' order, groups
/// in order of their state's first story.
pub open spec fn grouped(s: Seq<StoryView>) -> GroupsView
    decreases s.len(),
{
    if s.len() == 0 {
        Seq::empty()
    } else {
        add_story(grouped(s.drop_last()), s.last())
    }
}

/// The stories of one state, in order.
pub open spec fn in_state(s: Seq<StoryView>, id: i64) -> Seq<StoryView>
    decreases s.len(),
{
    if s.len() == 0 {
        Seq::empty()
    } else if s.last().workflow_state_id == id {
        in_state(s.drop_last(), id).push(s.last())
    } else {
        in_state(s.drop_last(), id)
    }
}

/// Every group sorted by position.
pub open spec fn sort_groups(g: GroupsView) -> GroupsView {
    g.map_values(|p: (i64, Seq<StoryView>)| (p.0, sort_by_position(p.1)))
}

/// A group cut to its first ten stories when its state is done.
pub open spec fn limit_group(states: Seq<WorkflowState>, id: i64, grp: Seq<StoryView>) -> Seq<StoryView> {
    if state_is_done(states, id) && grp.len() > 10 {
        grp.take(10)
    } else {
        grp
    }
}

/// Every group of a done state cut to its first ten stories.
pub open spec fn limit_groups(g: GroupsView, states: Seq<WorkflowState>) -> GroupsView {
    g.map_values(|p: (i64, Seq<StoryView>)| (p.0, limit_group(states, p.0, p.1)))
}

/// All stories of the groups, group by group.
pub open spec fn flatten_groups(g: GroupsView) -> Seq<StoryView>
    decreases g.len(),
{
    if g.len() == 0 {
        Seq::empty()
    } else {
        flatten_groups(g.drop_last()) + g.last().1
    }
}

/// The index of a state's group is -1 or a position of that group, and -1
/// only when no group has the state.
pub proof fn lemma_group_index(g: GroupsView, id: i64)
    ensures
        -1 <= group_index(g, id) < g.len(),
        group_index(g, id) >= 0 ==> g[group_index(g, id)].0 == id,
        group_index(g, id) < 0 ==> forall|k: int| 0 <= k < g.len() ==> (#[trigger] g[k]).0 != id,
    decreases g.len(),
{
    if g.len() > 0 {
        lemma_group_index(g.drop_last(), id);
        if group_index(g, id) < 0 {
            assert forall|k: int| 0 <= k < g.len() implies (#[trigger] g[k]).0 != id by {
                if k < g.len() - 1 {
                    assert(g[k] == g.drop_last()[k]);
                }
            }
        }
    }
}

proof fn lemma_group_index_unique(g: GroupsView, k: int)
    requires
        distinct_groups(g),
        0 <= k < g.len(),
    ensures
        group_index(g, g[k].0) == k,
    decreases g.len(),
{
    if k < g.len() - 1 {
        assert(g.drop_last()[k] == g[k]);
        assert(distinct_groups(g.drop_last()));
        lemma_group_index_unique(g.drop_last(), k);
    }
}

/// Grouping keeps one group per state, holding exactly that state's stories
/// in their order; a state without stories has no group.
pub proof fn lemma_grouped(s: Seq<StoryView>)
    ensures
        distinct_groups(grouped(s)),
        forall|id: i64| #[trigger] group_lookup(grouped(s), id) == (if in_state(s, id).len() > 0 {
            Some(in_state(s, id))
        } else {
            None
        }),
    decreases s.len(),
{
    if s.len() > 0 {
        let p = s.drop_last();
        let x = s.last();
        lemma_grouped(p);
        let g = grouped(p);
        let id0 = x.workflow_state_id;
        lemma_group_index(g, id0);
        let k = group_index(g, id0);
        let h = grouped(s);
        assert(h == add_story(g, x));
        assert(distinct_groups(h)) by {
            assert forall|i: int, j: int| 0 <= i < j < h.len() implies h[i].0 != h[j].0 by {
                if k < 0 && j == g.len() {
                    assert(h[i] == g[i]);
                }
            }
        }
        assert forall|id: i64| #[trigger] group_lookup(h, id) == (if in_state(s, id).len() > 0 {
            Some(in_state(s, id))
        } else {
            None
        }) by {
            lemma_group_index(g, id);
            lemma_group_index(h, id);
            let ih = group_lookup(g, id);
            assert(ih == (if in_state(p, id).len() > 0 {
                Some(in_state(p, id))
            } else {
                None
            }));
            if id == id0 {
                assert(in_state(s, id) == in_state(p, id).push(x));
                if k >= 0 {
                    assert(h[k].0 == id);
                    lemma_group_index_unique(h, k);
                    assert(ih == Some(g[k].1));
                } else {
                    lemma_group_index_unique(h, h.len() - 1);
                    assert(ih is None);
                    assert(in_state(s, id) =~= seq![x]);
                }
            } else {
                assert(in_state(s, id) == in_state(p, id));
                let kk = group_index(g, id);
                if kk >= 0 {
                    assert(h[kk] == g[kk]);
                    lemma_group_index_unique(h, kk);
                    assert(ih == Some(g[kk].1));
                } else {
                    assert forall|m: int| 0 <= m < h.len() implies (#[trigger] h[m]).0 != id by {
                        if m < g.len() && m != k {
                            assert(h[m] == g[m]);
                        }
                    }
                    assert(group_index(h, id) < 0);
                }
            }
        }
    } else {
        assert forall|id: i64| #[trigger] group_lookup(grouped(s), id) == (if in_state(s, id).len() > 0 {
            Some(in_state(s, id))
        } else {
            None
        }) by {}
    }
}

impl StoryGroups {
    /// No groups.
    pub fn new() -> (r: StoryGroups)
        ensures
            r@ == GroupsView::empty(),
    {
        let r = StoryGroups { groups: Vec::new() };
        assert(r@ =~= GroupsView::empty());
        r
    }

    /// The number of groups.
    pub fn len(&self) -> (r: usize)
        ensures
            r == self@.len(),
    {
        self.groups.len()
    }

    pub(crate) fn index_of(&self, id: i64) -> (r: Option<usize>)
        ensures
            match r {
                Some(k) => k as int == group_index(self@, id),
                None => group_index(self@, id) < 0,
            },
    {
        let mut i: usize = self.groups.len();
        while i > 0
            invariant
                i <= self@.len(),
                self@.len() == self.groups@.len(),
                group_index(self@, id) == group_index(self@.take(i as int), id),
            decreases i,
        {
            assert(self@.take(i as int).drop_last() =~= self@.take(i - 1));
            assert(self@.take(i as int).last() == self@[i - 1]);
            if self.groups[i - 1].0 == id {
                return Some(i - 1);
            }
            i = i - 1;
        }
        None
    }

    /// The stories of a state's group.
    pub fn get(&self, state_id: i64) -> (r: Option<&Vec<Story>>)
        ensures
            match r {
                Some(v) => group_lookup(self@, state_id) == Some(v.deep_view()),
                None => group_lookup(self@, state_id) is None,
            },
    {
        proof {
            lemma_group_index(self@, state_id);
        }
        match self.index_of(state_id) {
            Some(k) => Some(&self.groups[k].1),
            None => None,
        }
    }

    /// Appends a story to its state's group, creating the group at the end
    /// when missing.
    pub fn add(&mut self, story: Story)
        ensures
            final(self)@ == add_story(old(self)@, story@),
    {
        let ghost g = self@;
        let ghost x = story@;
        proof {
            lemma_group_index(g, x.workflow_state_id);
        }
        match self.index_of(story.workflow_state_id) {
            Some(k) => {
                let ghost vs = self.groups@;
                let (id, mut v) = self.groups.remove(k);
                assert(group_view((id, v)) == g[k as int]);
                v.push(story);
                assert(v.deep_view() =~= g[k as int].1.push(x));
                self.groups.insert(k, (id, v));
                assert(self.groups@ =~= vs.update(k as int, (id, v)));
                assert(self@ =~= g.update(k as int, (g[k as int].0, g[k as int].1.push(x))));
            },
            None => {
                let id = story.workflow_state_id;
                let mut v: Vec<Story> = Vec::new();
                v.push(story);
                self.groups.push((id, v));
                assert(v.deep_view() =~= seq![x]);
                assert(self@ =~= g.push((x.workflow_state_id, seq![x])));
            },
        }
    }

    /// Groups the stories by state (see `grouped`).
    pub fn from_stories(stories: &Vec<Story>) -> (r: StoryGroups)
        ensures
            r@ == grouped(stories.deep_view()),
    {
        let ghost s = stories.deep_view();
        let mut r = StoryGroups::new();
        let mut i: usize = 0;
        while i < stories.len()
            invariant
                i <= s.len(),
                s == stories.deep_view(),
                r@ == grouped(s.take(i as int)),
            decreases s.len() - i,
        {
            assert(s.take(i + 1).drop_last() =~= s.take(i as int));
            r.add(stories[i].clone());
            i = i + 1;
        }
        assert(s.take(s.len() as int) =~= s);
        r
    }

    /// Sorts the group of one state by position, if there is one.
    pub fn sort_group(&mut self, state_id: i64)
        ensures
            final(self)@ == sort_one_group(old(self)@, state_id),
    {
        let ghost g = self@;
        proof {
            lemma_group_index(g, state_id);
        }
        match self.index_of(state_id) {
            Some(k) => {
                let ghost vs = self.groups@;
                let (id, v) = self.groups.remove(k);
                assert(group_view((id, v)) == g[k as int]);
                let sorted = sort_stories_by_position(v);
                self.groups.insert(k, (id, sorted));
                assert(self.groups@ =~= vs.update(k as int, (id, sorted)));
                assert(self@ =~= g.update(k as int, (g[k as int].0, sort_by_position(g[k as int].1))));
            },
            None => {},
        }
    }

    /// Sorts every group by position.
    pub fn sort_each(&mut self)
        ensures
            final(self)@ == sort_groups(old(self)@),
    {
        let ghost g = self@;
        let mut rest: Vec<(i64, Vec<Story>)> = Vec::new();
        std::mem::swap(&mut rest, &mut self.groups);
        let mut out: Vec<(i64, Vec<Story>)> = Vec::new();
        let ghost orig = rest@;
        let mut i: usize = 0;
        let n = rest.len();
        while i < n
            invariant
                i <= n,
                n == orig.len(),
                g == orig.map_values(|p: (i64, Vec<Story>)| group_view(p)),
                rest@ == orig,
                out@.map_values(|p: (i64, Vec<Story>)| group_view(p)) == sort_groups(g.take(i as int)),
            decreases n - i,
        {
            let id = rest[i].0;
            let v = copy_stories(&rest[i].1);
            let sorted = sort_stories_by_position(v);
            let ghost before = out@;
            out.push((id, sorted));
            assert(g[i as int] == group_view(orig[i as int]));
            assert(out@.map_values(|p: (i64, Vec<Story>)| group_view(p)) =~= before.map_values(
                |p: (i64, Vec<Story>)| group_view(p),
            ).push(group_view(out@.last())));
            assert(sort_groups(g.take(i + 1)) =~= sort_groups(g.take(i as int)).push(
                (g[i as int].0, sort_by_position(g[i as int].1)),
            ));
            i = i + 1;
        }
        assert(g.take(n as int) =~= g);
        self.groups = out;
    }

    /// Cuts the group of every done state to its first ten stories.
    pub fn limit_done(&mut self, states: &Vec<WorkflowState>)
        ensures
            final(self)@ == limit_groups(old(self)@, states@),
    {
        let ghost g = self@;
        let mut rest: Vec<(i64, Vec<Story>)> = Vec::new();
        std::mem::swap(&mut rest, &mut self.groups);
        let ghost orig = rest@;
        let mut out: Vec<(i64, Vec<Story>)> = Vec::new();
        let mut i: usize = 0;
        let n = rest.len();
        while i < n
            invariant
                i <= n,
                n == orig.len(),
                g == orig.map_values(|p: (i64, Vec<Story>)| group_view(p)),
                rest@ == orig,
                out@.map_values(|p: (i64, Vec<Story>)| group_view(p)) == limit_groups(g.take(i as int), states@),
            decreases n - i,
        {
            let id = rest[i].0;
            let mut v = copy_stories(&rest[i].1);
            let ghost full = v.deep_view();
            if is_done_state(id, states) && v.len() > 10 {
                v.truncate(10);
                assert(v.deep_view() =~= full.take(10));
            }
            let ghost before = out@;
            out.push((id, v));
            assert(g[i as int] == group_view(orig[i as int]));
            assert(out@.map_values(|p: (i64, Vec<Story>)| group_view(p)) =~= before.map_values(
                |p: (i64, Vec<Story>)| group_view(p),
            ).push(group_view(out@.last())));
            assert(limit_groups(g.take(i + 1), states@) =~= limit_groups(g.take(i as int), states@).push(
                (g[i as int].0, limit_group(states@, g[i as int].0, g[i as int].1)),
            ));
            i = i + 1;
        }
        assert(g.take(n as int) =~= g);
        self.groups = out;
    }

    /// All stories of the groups, group by group.
    pub fn flatten(&self) -> (r: Vec<Story>)
        ensures
            r.deep_view() == flatten_groups(self@),
    {
        let mut r: Vec<Story> = Vec::new();
        let mut i: usize = 0;
        while i < self.groups.len()
            invariant
                i <= self@.len(),
                self@.len() == self.groups@.len(),
                r.deep_view() == flatten_groups(self@.take(i as int)),
            decreases self@.len() - i,
        {
            let v = &self.groups[i].1;
            let ghost before = r.deep_view();
            let mut j: usize = 0;
            while j < v.len()
                invariant
                    j <= v@.len(),
                    r.deep_view() == before + v.deep_view().take(j as int),
                decreases v@.len() - j,
            {
                let ghost prev = r.deep_view();
                r.push(v[j].clone());
                assert(r.deep_view() =~= prev.push(v@[j as int]@));
                assert(v.deep_view().take(j + 1) =~= v.deep_view().take(j as int).push(v@[j as int]@));
                assert(r.deep_view() =~= before + v.deep_view().take(j + 1));
                j = j + 1;
            }
            assert(self@.take(i + 1).drop_last() =~= self@.take(i as int));
            assert(v.deep_view().take(v@.len() as int) =~= v.deep_view());
            assert(self@[i as int].1 == v.deep_view());
            i = i + 1;
        }
        assert(self@.take(self@.len() as int) =~= self@);
        r
    }
}

// ---------------------------------------------------------------------------
// Which stories stay on the board

/// The date by which a story's week is judged: when it was completed, else
/// when it was last moved, else when it was last updated.
pub open spec fn activity_date(x: StoryView) -> Seq<char> {
    match x.completed_at {
        Some(d) => d@,
        None => match x.moved_at {
            Some(d) => d@,
            None => x.updated_at@,
        },
    }
}

/// A story stays on the board unless its state is done and its activity
/// date is not in the current week.
pub open spec fn stays_on_board(x: StoryView, states: Seq<WorkflowState>, now: int) -> bool {
    !state_is_done(states, x.workflow_state_id) || in_current_week(activity_date(x), now)
}

/// The stories that stay on the board, in order.
pub open spec fn on_board(s: Seq<StoryView>, states: Seq<WorkflowState>, now: int) -> Seq<StoryView>
    decreases s.len(),
{
    if s.len() == 0 {
        Seq::empty()
    } else if stays_on_board(s.last(), states, now) {
        on_board(s.drop_last(), states, now).push(s.last())
    } else {
        on_board(s.drop_last(), states, now)
    }
}

fn stays(x: &Story, states: &Vec<WorkflowState>, now: i64) -> (r: bool)
    ensures
        r == stays_on_board(x@, states@, now as int),
{
    if !is_done_state(x.workflow_state_id, states) {
        return true;
    }
    match &x.completed_at {
        Some(d) => is_current_week(d.as_str(), now),
        None => match &x.moved_at {
            Some(d) => is_current_week(d.as_str(), now),
            None => is_current_week(x.updated_at.as_str(), now),
        },
    }
}

/// Keeps the stories that stay on the board, in order.
pub fn board_stories(stories: Vec<Story>, states: &Vec<WorkflowState>, now: i64) -> (r: Vec<Story>)
    ensures
        r.deep_view() == on_board(stories.deep_view(), states@, now as int),
{
    let ghost s = stories.deep_view();
    let mut r: Vec<Story> = Vec::new();
    let mut i: usize = 0;
    while i < stories.len()
        invariant
            i <= s.len(),
            s == stories.deep_view(),
            r.deep_view() == on_board(s.take(i as int), states@, now as int),
        decreases s.len() - i,
    {
        assert(s.take(i + 1).drop_last() =~= s.take(i as int));
        assert(s.take(i + 1).last() == stories@[i as int]@);
        if stays(&stories[i], states, now) {
            let ghost prev = r.deep_view();
            r.push(stories[i].clone());
            assert(r.deep_view() =~= prev.push(stories@[i as int]@));
        }
        i = i + 1;
    }
    assert(s.take(s.len() as int) =~= s);
    r
}

/// What `state_is_done` says, by the states themselves: when no state with
/// the id has type `done` the state is not done; when the first state with
/// the id has type `done` it is.
proof fn lemma_state_is_done_by_states(states: Seq<WorkflowState>, id: i64)
    ensures
        (forall|j: int| 0 <= j < states.len() && states[j].id == id ==> states[j].state_type@ != "done"@)
            ==> !state_is_done(states, id),
        (exists|j: int|
            0 <= j < states.len() && states[j].id == id && states[j].state_type@ == "done"@ && (forall|k: int|
                0 <= k < j ==> states[k].id != id)) ==> state_is_done(states, id),
    decreases states.len(),
{
    if states.len() > 0 {
        let tail = states.drop_first();
        lemma_state_is_done_by_states(tail, id);
        if states[0].id != id {
            if forall|j: int| 0 <= j < states.len() && states[j].id == id ==> states[j].state_type@ != "done"@ {
                assert forall|j: int| 0 <= j < tail.len() && tail[j].id == id implies tail[j].state_type@
                    != "done"@ by {
                    assert(tail[j] == states[j + 1]);
                }
            }
            if exists|j: int|
                0 <= j < states.len() && states[j].id == id && states[j].state_type@ == "done"@ && (forall|k: int|
                    0 <= k < j ==> states[k].id != id) {
                let j = choose|j: int|
                    0 <= j < states.len() && states[j].id == id && states[j].state_type@ == "done"@ && (forall|k: int|
                        0 <= k < j ==> states[k].id != id);
                assert(j > 0);
                assert(tail[j - 1] == states[j]);
                assert forall|k: int| 0 <= k < j - 1 implies tail[k].id != id by {
                    assert(tail[k] == states[k + 1]);
                }
            }
        } else {
            if exists|j: int|
                0 <= j < states.len() && states[j].id == id && states[j].state_type@ == "done"@ && (forall|k: int|
                    0 <= k < j ==> states[k].id != id) {
                let j = choose|j: int|
                    0 <= j < states.len() && states[j].id == id && states[j].state_type@ == "done"@ && (forall|k: int|
                        0 <= k < j ==> states[k].id != id);
                assert(j == 0);
            }
        }
    }
}

/// Limiting the done columns keeps every group's state and order; it
/// leaves the group of every state that is not done as it was, and cuts
/// the group of a done state to its first ten stories.
pub proof fn lemma_limit_done_cuts_only_done_groups(g: GroupsView, states: Seq<WorkflowState>, i: int)
    requires
        0 <= i < g.len(),
    ensures
        limit_groups(g, states).len() == g.len(),
        limit_groups(g, states)[i].0 == g[i].0,
        (forall|j: int| 0 <= j < states.len() && states[j].id == g[i].0 ==> states[j].state_type@ != "done"@)
            ==> limit_groups(g, states)[i].1 == g[i].1,
        (exists|j: int|
            0 <= j < states.len() && states[j].id == g[i].0 && states[j].state_type@ == "done"@ && (forall|k: int|
                0 <= k < j ==> states[k].id != g[i].0)) ==> limit_groups(g, states)[i].1 == g[i].1.take(
            if g[i].1.len() > 10 {
                10
            } else {
                g[i].1.len() as int
            },
        ),
{
    lemma_state_is_done_by_states(states, g[i].0);
    assert(g[i].1.take(g[i].1.len() as int) =~= g[i].1);
}

} // verus!

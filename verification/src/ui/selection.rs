//! Choosing a state to move a story to, the epic filter's choice, and the
//! member names shown for owners.
use crate::api::Story;
use crate::ui::app::{
    cache_index, cache_insert, cached_name, next_index, prev_index, states_except, wrap_next, wrap_prev, App,
};
use vstd::prelude::*;

verus! {

/// The columns other than the one with this state id, in order.
pub fn columns_except(cols: &Vec<(i64, String)>, id: i64) -> (r: Vec<(i64, String)>)
    ensures
        r@ == states_except(cols@, id),
{
    let mut r: Vec<(i64, String)> = Vec::new();
    let mut i: usize = 0;
    while i < cols.len()
        invariant
            i <= cols@.len(),
            r@ == states_except(cols@.take(i as int), id),
        decreases cols@.len() - i,
    {
        assert(cols@.take(i + 1).drop_last() =~= cols@.take(i as int));
        assert(cols@.take(i + 1).last() == cols@[i as int]);
        if cols[i].0 != id {
            r.push((cols[i].0, cols[i].1.clone()));
        }
        i = i + 1;
    }
    assert(cols@.take(cols@.len() as int) =~= cols@);
    r
}

/// The index of the last cache entry for a member id.
fn find_cached(c: &Vec<(String, String)>, id: &String) -> (r: Option<usize>)
    ensures
        match r {
            Some(k) => k as int == cache_index(c@, id@),
            None => cache_index(c@, id@) == -1,
        },
{
    let mut i: usize = c.len();
    assert(c@.take(c@.len() as int) =~= c@);
    while i > 0
        invariant
            i <= c@.len(),
            cache_index(c@, id@) == cache_index(c@.take(i as int), id@),
        decreases i,
    {
        assert(c@.take(i as int).drop_last() =~= c@.take(i - 1));
        assert(c@.take(i as int).last() == c@[i - 1]);
        if c[i - 1].0 == *id {
            return Some(i - 1);
        }
        i = i - 1;
    }
    None
}

/// The cache with a member's name recorded (see `cache_insert`).
fn cache_with(c: Vec<(String, String)>, id: String, name: String) -> (r: Vec<(String, String)>)
    ensures
        r@ == cache_insert(c@, id, name),
{
    proof {
        lemma_cache_index_bounds(c@, id@);
    }
    let mut c = c;
    match find_cached(&c, &id) {
        Some(k) => {
            c.set(k, (id, name));
        },
        None => {
            c.push((id, name));
        },
    }
    c
}

proof fn lemma_cache_index_bounds(c: Seq<(String, String)>, id: Seq<char>)
    ensures
        -1 <= cache_index(c, id) < c.len(),
        cache_index(c, id) >= 0 ==> c[cache_index(c, id)].0@ == id,
        cache_index(c, id) >= 0 ==> cached_name(c, id) == Some(c[cache_index(c, id)].1),
        cache_index(c, id) < 0 ==> cached_name(c, id).is_none(),
    decreases c.len(),
{
    if c.len() > 0 && c.last().0@ != id {
        lemma_cache_index_bounds(c.drop_last(), id);
    }
}

impl App {
    // -----------------------------------------------------------------------
    // Moving a story to another state

    /// Opens the state selector, at its first choice, when the selected
    /// column has stories.
    #[verifier::spinoff_prover]
    pub fn toggle_state_selector(&mut self)
        requires
            old(self).wf(),
        ensures
            *final(self) == (if old(self).column_len() > 0 {
                App { show_state_selector: true, state_selector_index: 0, ..*old(self) }
            } else {
                *old(self)
            }),
    {
        let n = self.column_size_for_selector();
        if n > 0 {
            self.show_state_selector = true;
            self.state_selector_index = 0;
        }
    }

    #[verifier::spinoff_prover]
    fn column_size_for_selector(&self) -> (n: usize)
        requires
            self.wf(),
        ensures
            n == self.column_len(),
    {
        if self.workflow_states.len() == 0 {
            return 0;
        }
        let state_id = self.workflow_states[self.selected_column].0;
        match self.stories_by_state.get(state_id) {
            Some(stories) => stories.len(),
            None => 0,
        }
    }

    /// The columns a story could move to: all but its own state's.
    #[verifier::spinoff_prover]
    pub fn get_available_states_for_story(&self, story: &Story) -> (r: Vec<(i64, String)>)
        ensures
            r@ == states_except(self.workflow_states@, story.workflow_state_id),
    {
        columns_except(&self.workflow_states, story.workflow_state_id)
    }

    /// The columns the selected story could move to.
    #[verifier::spinoff_prover]
    fn targets(&self) -> (r: Vec<(i64, String)>)
        requires
            self.wf(),
        ensures
            r@ == self.target_states(),
    {
        match self.get_selected_story() {
            Some(story) => self.get_available_states_for_story(story),
            None => Vec::new(),
        }
    }

    /// Moves the state choice to the next target, wrapping to the first.
    #[verifier::spinoff_prover]
    pub fn next_state_selection(&mut self)
        requires
            old(self).wf(),
        ensures
            *final(self) == (if old(self).target_states().len() > 0 {
                App {
                    state_selector_index: wrap_next(
                        old(self).state_selector_index,
                        old(self).target_states().len() as int,
                    ),
                    ..*old(self)
                }
            } else {
                *old(self)
            }),
    {
        let n = self.targets().len();
        if n > 0 {
            let i = next_index(self.state_selector_index, n);
            self.state_selector_index = i;
        }
    }

    /// Moves the state choice to the previous target, wrapping to the last.
    #[verifier::spinoff_prover]
    pub fn previous_state_selection(&mut self)
        requires
            old(self).wf(),
        ensures
            *final(self) == (if old(self).target_states().len() > 0 {
                App {
                    state_selector_index: wrap_prev(
                        old(self).state_selector_index,
                        old(self).target_states().len() as int,
                    ),
                    ..*old(self)
                }
            } else {
                *old(self)
            }),
    {
        let n = self.targets().len();
        if n > 0 {
            let i = prev_index(self.state_selector_index, n);
            self.state_selector_index = i;
        }
    }

    /// The state id of the chosen target, if the choice lies among them.
    #[verifier::spinoff_prover]
    pub fn get_selected_target_state(&self) -> (r: Option<i64>)
        requires
            self.wf(),
        ensures
            r == (if self.state_selector_index < self.target_states().len() {
                Some(self.target_states()[self.state_selector_index as int].0)
            } else {
                None
            }),
    {
        let t = self.targets();
        if self.state_selector_index < t.len() {
            Some(t[self.state_selector_index].0)
        } else {
            None
        }
    }

    // -----------------------------------------------------------------------
    // The epic selector

    /// Opens or closes the epic selector; opening puts the choice on "all
    /// stories".
    #[verifier::spinoff_prover]
    pub fn toggle_epic_selector(&mut self)
        ensures
            *final(self) == (if old(self).show_epic_selector {
                App { show_epic_selector: false, ..*old(self) }
            } else {
                App { show_epic_selector: true, epic_selector_index: 0, ..*old(self) }
            }),
    {
        if self.show_epic_selector {
            self.show_epic_selector = false;
        } else {
            self.show_epic_selector = true;
            self.epic_selector_index = 0;
        }
    }

    /// Moves the epic choice down, over "all stories" and each epic,
    /// wrapping to "all stories".
    #[verifier::spinoff_prover]
    pub fn next_epic_selection(&mut self)
        requires
            old(self).wf(),
        ensures
            *final(self) == (App {
                epic_selector_index: wrap_next(old(self).epic_selector_index, old(self).epics@.len() + 1 as int),
                ..*old(self)
            }),
    {
        let i = next_index(self.epic_selector_index, self.epics.len() + 1);
        self.epic_selector_index = i;
    }

    /// Moves the epic choice up, wrapping to the last epic.
    #[verifier::spinoff_prover]
    pub fn previous_epic_selection(&mut self)
        requires
            old(self).wf(),
        ensures
            *final(self) == (App {
                epic_selector_index: wrap_prev(old(self).epic_selector_index, old(self).epics@.len() + 1 as int),
                ..*old(self)
            }),
    {
        let i = prev_index(self.epic_selector_index, self.epics.len() + 1);
        self.epic_selector_index = i;
    }

    // -----------------------------------------------------------------------
    // Members

    /// The display name of each owner id: the cached name, or the id itself
    /// when none is cached.
    #[verifier::spinoff_prover]
    pub fn get_owner_names(&self, owner_ids: &Vec<String>) -> (r: Vec<String>)
        ensures
            r@.len() == owner_ids@.len(),
            forall|i: int|
                0 <= i < owner_ids@.len() ==> #[trigger] r@[i] == (match cached_name(
                    self.member_cache@,
                    owner_ids@[i]@,
                ) {
                    Some(name) => name,
                    None => owner_ids@[i],
                }),
    {
        let mut r: Vec<String> = Vec::new();
        let mut i: usize = 0;
        while i < owner_ids.len()
            invariant
                i <= owner_ids@.len(),
                r@.len() == i,
                forall|k: int|
                    0 <= k < i ==> #[trigger] r@[k] == (match cached_name(self.member_cache@, owner_ids@[k]@) {
                        Some(name) => name,
                        None => owner_ids@[k],
                    }),
            decreases owner_ids@.len() - i,
        {
            proof {
                lemma_cache_index_bounds(self.member_cache@, owner_ids@[i as int]@);
            }
            let name = match find_cached(&self.member_cache, &owner_ids[i]) {
                Some(k) => self.member_cache[k].1.clone(),
                None => owner_ids[i].clone(),
            };
            r.push(name);
            i = i + 1;
        }
        r
    }

    /// Records a member's name, replacing the one cached for the id.
    #[verifier::spinoff_prover]
    pub fn add_member_to_cache(&mut self, member_id: String, member_name: String)
        ensures
            *final(self) == (App {
                member_cache: final(self).member_cache,
                ..*old(self)
            }),
            final(self).member_cache@ == cache_insert(old(self).member_cache@, member_id, member_name),
    {
        let mut cache: Vec<(String, String)> = Vec::new();
        std::mem::swap(&mut cache, &mut self.member_cache);
        let cache = cache_with(cache, member_id, member_name);
        self.member_cache = cache;
    }

    /// Records the current user.
    #[verifier::spinoff_prover]
    pub fn set_current_user_id(&mut self, user_id: String)
        ensures
            *final(self) == (App { current_user_id: Some(user_id), ..*old(self) }),
    {
        self.current_user_id = Some(user_id);
    }
}

} // verus!

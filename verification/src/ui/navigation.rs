//! Moving the selection through the board and the list, and the detail
//! view.
use crate::api::Story;
use crate::ui::board::{group_index, lemma_group_index};
use crate::ui::keymap::{moved_down, moved_up};
use crate::ui::app::{
    lemma_next_previous, link_from, next_index, prev_index, scroll_offset, scrolled_offset, step_down, step_down_index, wrap_next,
    wrap_prev, App,
};
use vstd::prelude::*;

verus! {

impl App {
    // -----------------------------------------------------------------------
    // View mode and list scrolling

    /// Switches between the column and the list view, resetting the
    /// selection of the view switched to.
    #[verifier::spinoff_prover]
    pub fn toggle_view_mode(&mut self)
        ensures
            *final(self) == (if old(self).list_view_mode {
                App { list_view_mode: false, selected_column: 0, selected_row: 0, ..*old(self) }
            } else {
                App { list_view_mode: true, list_selected_index: 0, list_scroll_offset: 0, ..*old(self) }
            }),
    {
        self.list_view_mode = !self.list_view_mode;
        if self.list_view_mode {
            self.list_selected_index = 0;
            self.list_scroll_offset = 0;
        } else {
            self.selected_column = 0;
            self.selected_row = 0;
        }
    }

    /// Scrolls the list view so that the selected story is shown in a
    /// window of `visible_height` lines, two lines per story.
    #[verifier::spinoff_prover]
    pub fn update_list_scroll(&mut self, visible_height: usize)
        ensures
            *final(self) == (if old(self).list_view_mode && old(self).all_stories_list@.len() > 0
                && visible_height / 2 > 0 {
                App {
                    list_scroll_offset: scrolled_offset(
                        old(self).list_selected_index,
                        old(self).list_scroll_offset,
                        old(self).all_stories_list.len(),
                        visible_height / 2,
                    ),
                    ..*old(self)
                }
            } else {
                *old(self)
            }),
    {
        let visible = visible_height / 2;
        if self.list_view_mode && self.all_stories_list.len() > 0 && visible > 0 {
            let moved = scroll_offset(
                self.list_selected_index,
                self.list_scroll_offset,
                self.all_stories_list.len(),
                visible,
            );
            self.list_scroll_offset = moved;
        }
    }

    // -----------------------------------------------------------------------
    // Moving the selection

    /// Selects the next story of the list, or of the selected column,
    /// wrapping to the first.
    #[verifier::spinoff_prover]
    pub fn next(&mut self)
        requires
            old(self).wf(),
        ensures
            *final(self) == moved_down(*old(self)),
    {
        proof {
            reveal(moved_down);
        }
        if self.list_view_mode {
            let n = self.all_stories_list.len();
            if n > 0 {
                let i = next_index(self.list_selected_index, n);
                self.select_list_index(i);
            }
        } else {
            let n = self.column_size();
            if n > 0 {
                let row = next_index(self.selected_row, n);
                self.select_row(row);
            }
        }
    }

    /// Selects the previous story of the list, or of the selected column,
    /// wrapping to the last.
    #[verifier::spinoff_prover]
    pub fn previous(&mut self)
        requires
            old(self).wf(),
        ensures
            *final(self) == moved_up(*old(self)),
    {
        proof {
            reveal(moved_up);
        }
        if self.list_view_mode {
            let n = self.all_stories_list.len();
            if n > 0 {
                let i = prev_index(self.list_selected_index, n);
                self.select_list_index(i);
            }
        } else {
            let n = self.column_size();
            if n > 0 {
                let row = prev_index(self.selected_row, n);
                self.select_row(row);
            }
        }
    }

    /// Selects the story at `i` of the list view.
    #[verifier::spinoff_prover]
    fn select_list_index(&mut self, i: usize)
        ensures
            *final(self) == (App { list_selected_index: i, ..*old(self) }),
    {
        self.list_selected_index = i;
    }

    /// Selects the story at `row` of the selected column.
    #[verifier::spinoff_prover]
    fn select_row(&mut self, row: usize)
        ensures
            *final(self) == (App { selected_row: row, ..*old(self) }),
    {
        self.selected_row = row;
    }

    /// Selects the next column, wrapping to the first, at its first row.
    #[verifier::spinoff_prover]
    pub fn next_column(&mut self)
        ensures
            *final(self) == (if old(self).workflow_states@.len() > 0 {
                App {
                    selected_column: wrap_next(old(self).selected_column, old(self).workflow_states@.len() as int),
                    selected_row: 0,
                    ..*old(self)
                }
            } else {
                *old(self)
            }),
    {
        if self.workflow_states.len() > 0 {
            self.selected_column = next_index(self.selected_column, self.workflow_states.len());
            self.selected_row = 0;
        }
    }

    /// Selects the previous column, wrapping to the last, at its first row.
    #[verifier::spinoff_prover]
    pub fn previous_column(&mut self)
        ensures
            *final(self) == (if old(self).workflow_states@.len() > 0 {
                App {
                    selected_column: wrap_prev(old(self).selected_column, old(self).workflow_states@.len() as int),
                    selected_row: 0,
                    ..*old(self)
                }
            } else {
                *old(self)
            }),
    {
        let n = self.workflow_states.len();
        if n > 0 {
            let c = prev_index(self.selected_column, n);
            self.selected_column = c;
            self.selected_row = 0;
        }
    }

    // -----------------------------------------------------------------------
    // The detail view and the selected story

    /// Opens or closes the detail view when the selected column has
    /// stories; opening scrolls it to the top.
    #[verifier::spinoff_prover]
    pub fn toggle_detail(&mut self)
        requires
            old(self).wf(),
        ensures
            *final(self) == (if !old(self).column_has_stories() {
                *old(self)
            } else if old(self).show_detail {
                App { show_detail: false, ..*old(self) }
            } else {
                App { show_detail: true, detail_scroll_offset: 0, ..*old(self) }
            }),
    {
        if self.column_filled() {
            let open = !self.show_detail;
            let offset = if open {
                0
            } else {
                self.detail_scroll_offset
            };
            self.show_detail = open;
            self.detail_scroll_offset = offset;
        }
    }

    /// Whether the selected column has stories.
    #[verifier::spinoff_prover]
    pub(crate) fn column_filled(&self) -> (r: bool)
        requires
            self.wf(),
        ensures
            r == self.column_has_stories(),
    {
        if self.workflow_states.len() == 0 {
            return false;
        }
        let state_id = self.workflow_states[self.selected_column].0;
        match self.stories_by_state.get(state_id) {
            Some(stories) => stories.len() > 0,
            None => false,
        }
    }

    /// The number of stories in the selected column.
    #[verifier::spinoff_prover]
    pub(crate) fn column_size(&self) -> (n: usize)
        requires
            self.wf(),
        ensures
            n == self.column_len(),
    {
        if self.workflow_states.len() == 0 {
            return 0;
        }
        let state_id = self.workflow_states[self.selected_column].0;
        match self.stories_by_state.get(state_id) {
            Some(stories) => stories.len(),
            None => 0,
        }
    }

    /// The selected story (see `selected_story`).
    #[verifier::spinoff_prover]
    pub fn get_selected_story(&self) -> (r: Option<&Story>)
        requires
            self.wf(),
        ensures
            match r {
                Some(s) => self.selected_story() == Some(s@),
                None => self.selected_story().is_none(),
            },
    {
        if self.list_view_mode {
            if self.list_selected_index < self.all_stories_list.len() {
                Some(&self.all_stories_list[self.list_selected_index])
            } else {
                None
            }
        } else {
            if self.workflow_states.len() == 0 {
                return None;
            }
            let state_id = self.workflow_states[self.selected_column].0;
            match self.stories_by_state.get(state_id) {
                Some(stories) => {
                    if self.selected_row < stories.len() {
                        Some(&stories[self.selected_row])
                    } else {
                        None
                    }
                },
                None => None,
            }
        }
    }

    /// Scrolls the detail view one line down.
    #[verifier::spinoff_prover]
    pub fn scroll_detail_down(&mut self)
        requires
            old(self).detail_scroll_offset < usize::MAX,
        ensures
            *final(self) == (App { detail_scroll_offset: (old(self).detail_scroll_offset + 1) as usize, ..*old(self) }),
    {
        self.detail_scroll_offset = self.detail_scroll_offset + 1;
    }

    /// Scrolls the detail view up by a line, stopping at the top.
    #[verifier::spinoff_prover]
    pub fn scroll_detail_up(&mut self)
        ensures
            *final(self) == (App { detail_scroll_offset: step_down(old(self).detail_scroll_offset), ..*old(self) }),
    {
        let offset = step_down_index(self.detail_scroll_offset);
        self.detail_scroll_offset = offset;
    }

    /// The link of the detail popup under a left click at a cell, when the
    /// detail view is open and the click falls inside its area.
    #[verifier::spinoff_prover]
    pub fn clicked_url(&self, column: u16, row: u16) -> (r: Option<String>)
        ensures
            (match r {
                Some(u) => Some(u@),
                None => None,
            }) == (match self.detail_area {
                Some(area) => if self.show_detail && area.x <= column && column < area.x + area.width
                    && area.y <= row && row < area.y + area.height {
                    link_from(self.clickable_urls@, 0, area, column, row)
                } else {
                    None
                },
                None => None,
            }),
    {
        if !self.show_detail {
            return None;
        }
        let area = match self.detail_area {
            Some(a) => a,
            None => return None,
        };
        let col = column as u32;
        if !(col >= area.x as u32 && col < area.x as u32 + area.width as u32 && row >= area.y
            && (row as u32) < area.y as u32 + area.height as u32) {
            return None;
        }
        let relative_row = row - area.y;
        let ghost urls = self.clickable_urls@;
        let mut i: usize = 0;
        while i < self.clickable_urls.len()
            invariant
                i <= urls.len(),
                urls == self.clickable_urls@,
                relative_row == row - area.y,
                col == column,
                self.show_detail,
                self.detail_area == Some(area),
                area.x <= column && column < area.x + area.width && area.y <= row && row < area.y
                    + area.height,
                link_from(urls, 0, area, column, row) == link_from(urls, i as int, area, column, row),
            decreases urls.len() - i,
        {
            let u = &self.clickable_urls[i];
            if u.row == relative_row && col >= area.x as u32 + u.start_col as u32 && col <= area.x as u32
                + u.end_col as u32 {
                return Some(u.url.clone());
            }
            i = i + 1;
        }
        None
    }
}

/// `previous` undoes `next`: moving the selection down and then up gives
/// back the selection, when it stood on a story: in the list view an index
/// within the list, in the column view a row within the selected column.
pub proof fn lemma_previous_undoes_next(a: App)
    requires
        a.list_view_mode ==> a.list_selected_index < a.all_stories_list@.len(),
        !a.list_view_mode ==> a.selected_row < a.column_len(),
    ensures
        moved_up(moved_down(a)).list_selected_index == a.list_selected_index,
        moved_up(moved_down(a)).selected_row == a.selected_row,
        moved_up(moved_down(a)).selected_column == a.selected_column,
{
    let b = moved_down(a);
    lemma_moved_down_fields(a);
    lemma_moved_up_fields(b);
    if a.list_view_mode {
        assert(a.all_stories_list.len() == a.all_stories_list@.len());
        lemma_next_previous(a.list_selected_index, a.all_stories_list@.len() as int);
    } else {
        lemma_column_len_fits(a);
        lemma_next_previous(a.selected_row, a.column_len());
    }
}

/// A column never holds more stories than a machine index counts: it is
/// one of the vectors the board keeps.
pub proof fn lemma_column_len_fits(a: App)
    ensures
        a.column_len() <= usize::MAX,
{
    if a.workflow_states@.len() > 0 {
        let g = a.stories_by_state@;
        let id = a.workflow_states@[a.selected_column as int].0;
        lemma_group_index(g, id);
        let k = group_index(g, id);
        if k >= 0 {
            let v = a.stories_by_state.groups@[k].1;
            assert(v.len() == v@.len());
            assert(g[k].1.len() == v@.len());
        }
    }
}

/// What moving down changes: the index of the list in the list view, the
/// row in the column view.
proof fn lemma_moved_down_fields(a: App)
    ensures
        moved_down(a).list_view_mode == a.list_view_mode,
        moved_down(a).all_stories_list@ == a.all_stories_list@,
        moved_down(a).column_len() == a.column_len(),
        moved_down(a).selected_column == a.selected_column,
        moved_down(a).list_selected_index == (if a.list_view_mode && a.all_stories_list@.len() > 0 {
            wrap_next(a.list_selected_index, a.all_stories_list@.len() as int)
        } else {
            a.list_selected_index
        }),
        moved_down(a).selected_row == (if !a.list_view_mode && a.column_len() > 0 {
            wrap_next(a.selected_row, a.column_len())
        } else {
            a.selected_row
        }),
{
    reveal(moved_down);
    let b = moved_down(a);
    assert(b.workflow_states == a.workflow_states && b.stories_by_state == a.stories_by_state);
}

/// What moving up changes: the index of the list in the list view, the row
/// in the column view.
proof fn lemma_moved_up_fields(a: App)
    ensures
        moved_up(a).selected_column == a.selected_column,
        moved_up(a).list_selected_index == (if a.list_view_mode && a.all_stories_list@.len() > 0 {
            wrap_prev(a.list_selected_index, a.all_stories_list@.len() as int)
        } else {
            a.list_selected_index
        }),
        moved_up(a).selected_row == (if !a.list_view_mode && a.column_len() > 0 {
            wrap_prev(a.selected_row, a.column_len())
        } else {
            a.selected_row
        }),
{
    reveal(moved_up);
}

} // verus!

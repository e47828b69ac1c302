//! The `view` listing printed in the terminal: the lines shown for each
//! story, and when the listing fetches another page or stops.
use crate::api::{Story, StoryView};
use crate::cli::{state_emoji, state_mark, type_icon, type_style};
use crate::text::{chars_of, concat, i64_to_text, int_to_text, join, join_strings, string_of, views};
use vstd::prelude::*;

verus! {

/// The name a state id has in a table of pairs; a later pair for the same
/// id replaces an earlier one.
pub open spec fn state_name_of(names: Seq<(i64, String)>, id: i64) -> Option<Seq<char>>
    decreases names.len(),
{
    if names.len() == 0 {
        None
    } else if names.last().0 == id {
        Some(names.last().1@)
    } else {
        state_name_of(names.drop_last(), id)
    }
}

/// The name a member id has in a table of pairs; a later pair for the same
/// id replaces an earlier one.
pub open spec fn member_name_of(names: Seq<(String, String)>, id: Seq<char>) -> Option<Seq<char>>
    decreases names.len(),
{
    if names.len() == 0 {
        None
    } else if names.last().0@ == id {
        Some(names.last().1@)
    } else {
        member_name_of(names.drop_last(), id)
    }
}

/// The text up to the first line break; without a line break, all of it.
pub open spec fn before_newline(s: Seq<char>) -> Seq<char>
    decreases s.len(),
{
    if s.len() == 0 {
        s
    } else if s[0] == '\n' {
        Seq::empty()
    } else {
        seq![s[0]] + before_newline(s.drop_first())
    }
}

/// Whether the text holds a line break.
pub open spec fn has_newline(s: Seq<char>) -> bool {
    exists|i: int| 0 <= i < s.len() && s[i] == '\n'
}

/// The first line of a text, as `str::lines` gives it: the text before the
/// first line break, without the `'\r'` of a `"\r\n"` ending; a text
/// without a line break is its own first line.
pub open spec fn first_line(s: Seq<char>) -> Seq<char> {
    let p = before_newline(s);
    if has_newline(s) && p.len() > 0 && p.last() == '\r' {
        p.drop_last()
    } else {
        p
    }
}

/// The name shown for a state: its name in the table, else its id.
pub open spec fn shown_state(names: Seq<(i64, String)>, id: i64) -> Seq<char> {
    match state_name_of(names, id) {
        Some(n) => n,
        None => int_to_text(id as int),
    }
}

/// The name shown for an owner: its name in the table, else its id.
pub open spec fn shown_owner(members: Seq<(String, String)>, id: Seq<char>) -> Seq<char> {
    match member_name_of(members, id) {
        Some(n) => n,
        None => id,
    }
}

/// The lines shown for a story: its id and name; the first line of its
/// description when that is not empty; its owners when it has any; its
/// state, type and link; and an empty line.
pub open spec fn story_lines(
    s: StoryView,
    names: Seq<(i64, String)>,
    members: Seq<(String, String)>,
) -> Seq<Seq<char>> {
    let title = "\x1b[1;36m⚡ #"@ + int_to_text(s.id as int) + " - "@ + s.name@ + "\x1b[0m"@;
    let first = first_line(s.description@);
    let description = if first.len() > 0 {
        seq!["   \x1b[37m📄 "@ + first + "\x1b[0m"@]
    } else {
        Seq::empty()
    };
    let owners = s.owner_ids.map_values(|id: String| shown_owner(members, id@));
    let owner_line = if s.owner_ids.len() > 0 {
        seq!["   \x1b[33m👤 Owner(s): "@ + join(owners, ", "@) + "\x1b[0m"@]
    } else {
        Seq::empty()
    };
    let state = shown_state(names, s.workflow_state_id);
    let style = type_style(s.story_type@);
    let details = "   "@ + state_mark(state) + " \x1b[35m"@ + state + "\x1b[0m | "@ + style.0 + style.1 + " "@
        + s.story_type@ + "\x1b[0m | \x1b[36m🔗 "@ + s.app_url@ + "\x1b[0m"@;
    seq![title] + description + owner_line + seq![details, Seq::empty()]
}

/// Looks a state's name up (see `state_name_of`).
fn lookup_state(names: &Vec<(i64, String)>, id: i64) -> (r: Option<String>)
    ensures
        match r {
            Some(n) => state_name_of(names@, id) == Some(n@),
            None => state_name_of(names@, id) is None,
        },
{
    let mut i = names.len();
    assert(names@.take(names@.len() as int) =~= names@);
    while i > 0
        invariant
            i <= names@.len(),
            state_name_of(names@, id) == state_name_of(names@.take(i as int), id),
        decreases i,
    {
        let ghost t = names@.take(i as int);
        assert(t.drop_last() =~= names@.take(i - 1));
        if names[i - 1].0 == id {
            return Some(names[i - 1].1.clone());
        }
        i = i - 1;
    }
    None
}

/// Looks an owner's name up (see `member_name_of`).
fn lookup_member(members: &Vec<(String, String)>, id: &String) -> (r: Option<String>)
    ensures
        match r {
            Some(n) => member_name_of(members@, id@) == Some(n@),
            None => member_name_of(members@, id@) is None,
        },
{
    let mut i = members.len();
    assert(members@.take(members@.len() as int) =~= members@);
    while i > 0
        invariant
            i <= members@.len(),
            member_name_of(members@, id@) == member_name_of(members@.take(i as int), id@),
        decreases i,
    {
        let ghost t = members@.take(i as int);
        assert(t.drop_last() =~= members@.take(i - 1));
        if members[i - 1].0 == *id {
            return Some(members[i - 1].1.clone());
        }
        i = i - 1;
    }
    None
}

/// The first line of a text (see `first_line`), or nothing when it is
/// empty.
fn first_line_of(s: &str) -> (r: Option<String>)
    ensures
        match r {
            Some(l) => l@ == first_line(s@) && l@.len() > 0,
            None => first_line(s@).len() == 0,
        },
{
    let cs = chars_of(s);
    let mut out: Vec<char> = Vec::new();
    let mut i: usize = 0;
    assert(s@.skip(0) =~= s@);
    assert(out@ + before_newline(s@.skip(0)) =~= before_newline(s@));
    while i < cs.len() && cs[i] != '\n'
        invariant
            i <= cs@.len(),
            cs@ == s@,
            forall|j: int| 0 <= j < i ==> cs@[j] != '\n',
            before_newline(s@) == out@ + before_newline(s@.skip(i as int)),
        decreases cs@.len() - i,
    {
        assert(s@.skip(i as int).drop_first() =~= s@.skip(i + 1));
        assert(s@.skip(i as int)[0] == cs@[i as int]);
        out.push(cs[i]);
        proof {
            assert(out@ + before_newline(s@.skip(i + 1)) =~= out@.drop_last() + before_newline(s@.skip(i as int)));
        }
        i = i + 1;
    }
    let found = i < cs.len();
    proof {
        if found {
            assert(s@.skip(i as int)[0] == '\n');
            assert(out@ =~= before_newline(s@));
            assert(has_newline(s@));
        } else {
            assert(s@.skip(i as int) =~= Seq::<char>::empty());
            assert(out@ =~= before_newline(s@));
            assert(!has_newline(s@));
        }
    }
    if found && out.len() > 0 && out[out.len() - 1] == '\r' {
        out.pop();
    }
    if out.len() > 0 {
        Some(string_of(out.as_slice()))
    } else {
        None
    }
}

/// The lines printed for a story in the listing (see `story_lines`); the
/// tables give state and member names.
pub fn story_listing(story: &Story, names: &Vec<(i64, String)>, members: &Vec<(String, String)>) -> (r: Vec<String>)
    ensures
        views(r@) == story_lines(story@, names@, members@),
{
    let ghost s = story@;
    let mut lines: Vec<String> = Vec::new();
    let title = concat(
        concat(concat(concat("\x1b[1;36m⚡ #", i64_to_text(story.id).as_str()).as_str(), " - ").as_str(), story.name.as_str()).as_str(),
        "\x1b[0m",
    );
    lines.push(title);
    match first_line_of(story.description.as_str()) {
        Some(first) => lines.push(concat(concat("   \x1b[37m📄 ", first.as_str()).as_str(), "\x1b[0m")),
        None => {},
    }
    if story.owner_ids.len() > 0 {
        let mut owners: Vec<String> = Vec::new();
        let mut i: usize = 0;
        while i < story.owner_ids.len()
            invariant
                i <= story.owner_ids@.len(),
                views(owners@) == story.owner_ids@.take(i as int).map_values(|id: String| shown_owner(members@, id@)),
            decreases story.owner_ids@.len() - i,
        {
            let id = &story.owner_ids[i];
            let shown = match lookup_member(members, id) {
                Some(n) => n,
                None => id.clone(),
            };
            assert(shown@ == shown_owner(members@, id@));
            let ghost before = owners@;
            owners.push(shown);
            proof {
                assert(views(owners@) =~= views(before).push(shown@));
                assert(story.owner_ids@.take(i + 1) =~= story.owner_ids@.take(i as int).push(story.owner_ids@[i as int]));
                assert(views(owners@) =~= story.owner_ids@.take(i + 1).map_values(|id: String| shown_owner(members@, id@)));
            }
            i = i + 1;
        }
        proof {
            assert(story.owner_ids@.take(story.owner_ids@.len() as int) =~= story.owner_ids@);
        }
        let joined = join_strings(&owners, ", ");
        lines.push(concat(concat("   \x1b[33m👤 Owner(s): ", joined.as_str()).as_str(), "\x1b[0m"));
    }
    let state = match lookup_state(names, story.workflow_state_id) {
        Some(n) => n,
        None => i64_to_text(story.workflow_state_id),
    };
    let (mark, color) = type_icon(story.story_type.as_str());
    let a = concat(concat(concat("   ", state_emoji(state.as_str())).as_str(), " \x1b[35m").as_str(), state.as_str());
    let b = concat(concat(concat(a.as_str(), "\x1b[0m | ").as_str(), mark).as_str(), color);
    let c = concat(concat(concat(b.as_str(), " ").as_str(), story.story_type.as_str()).as_str(), "\x1b[0m | \x1b[36m🔗 ");
    let details = concat(concat(c.as_str(), story.app_url.as_str()).as_str(), "\x1b[0m");
    lines.push(details);
    lines.push(String::new());
    proof {
        assert(views(lines@) =~= story_lines(s, names@, members@));
    }
    lines
}

/// What the listing does next.
pub enum PageStep {
    /// Fetch the first page.
    FetchFirst,
    /// Fetch the page after the last one.
    FetchNext,
    /// Stop: every story was shown.
    Finish,
    /// Show stories of the current page.
    Show,
}

/// What the listing does next: with no page yet, fetch the first; with the
/// page shown to its end, fetch the next when there is one and stop
/// otherwise; else show more of the page.
pub fn next_page_step(batch_len: usize, batch_index: usize, has_next_page: bool) -> (r: PageStep)
    ensures
        r == (if batch_len == 0 {
            PageStep::FetchFirst
        } else if batch_index >= batch_len {
            if has_next_page {
                PageStep::FetchNext
            } else {
                PageStep::Finish
            }
        } else {
            PageStep::Show
        }),
{
    if batch_len == 0 {
        PageStep::FetchFirst
    } else if batch_index >= batch_len {
        if has_next_page {
            PageStep::FetchNext
        } else {
            PageStep::Finish
        }
    } else {
        PageStep::Show
    }
}

} // verus!

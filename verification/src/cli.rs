//! The command line's own rules: story ids and types as typed, which
//! credentials a command uses, the search query, paging through results,
//! and the texts shown for stories.
use crate::api::{Error, Story, StoryView, Workflow, WorkflowView};
use crate::config::{Config, WorkspaceConfig};
use crate::git::naming::{lowercase, to_lowercase};
use crate::text::{
    chars_of, concat, contains_ignore_case, contains_ignore_case_str, eq_ignore_ascii_case, join,
    join_strings, parse_i64, parse_i64_str, string_of, trim, trim_str, views,
};
use crate::ui::app::{contains_story_id, has_story_id};
use vstd::prelude::*;

verus! {

/// The state a story is moved to when finished.
pub const DONE_STATE_ID: i64 = 500000010;

/// The state a story created on the board starts in when the workflows
/// name none.
pub const DEFAULT_STATE_ID: i64 = 500000007;

// ---------------------------------------------------------------------------
// Story types and ids

/// Whether a text names a story type.
pub open spec fn is_story_type(s: Seq<char>) -> bool {
    s == "feature"@ || s == "bug"@ || s == "chore"@
}

/// Accepts a story type, or explains which ones there are.
pub fn validate_story_type(s: &str) -> (r: Result<String, String>)
    ensures
        match r {
            Ok(t) => is_story_type(s@) && t@ == s@,
            Err(m) => !is_story_type(s@) && m@ == "Invalid story type '"@ + s@
                + "'. Must be one of: feature, bug, chore"@,
        },
{
    let t = String::from_str(s);
    if t == String::from_str("feature") || t == String::from_str("bug") || t == String::from_str("chore") {
        Ok(t)
    } else {
        Err(concat(concat("Invalid story type '", s).as_str(), "'. Must be one of: feature, bug, chore"))
    }
}

/// Whether a text starts with `sc-` in any case.
pub open spec fn has_sc_prefix(s: Seq<char>) -> bool {
    s.len() >= 3 && eq_ignore_ascii_case(s.take(3), "sc-"@)
}

/// The story id a `finish` or `edit` command is given: `42`, or `sc-42` in
/// any case.
pub open spec fn story_id_of(s: Seq<char>) -> Option<i64> {
    if has_sc_prefix(s) {
        parse_i64(s.skip(3))
    } else {
        parse_i64(s)
    }
}

/// The text of the error that std's `str::parse::<i64>` gives for `s`, as
/// the error displays it (why `s` is not an integer that fits).
pub uninterp spec fn i64_parse_error(s: Seq<char>) -> Seq<char>;

/// Calls `str::parse::<i64>` and hands back its error's text, or an empty
/// text when it parses. The contract names that text and says nothing of
/// what it holds.
#[verifier::external_body]
fn i64_parse_error_text(s: &str) -> (r: String)
    ensures
        r@ == i64_parse_error(s@),
{
    match s.parse::<i64>() {
        Ok(_) => String::new(),
        Err(e) => e.to_string(),
    }
}

/// An error with `message` whose cause is why `s` is not an `i64`.
fn parse_failure(s: &str, message: &str) -> (e: Error)
    ensures
        e.message@ == message@,
        e.causes@.len() == 1,
        e.causes@[0]@ == i64_parse_error(s@),
{
    let cause = i64_parse_error_text(s);
    Error::new(cause.as_str()).context(message)
}

/// Reads the story id of a `finish` or `edit` command (see `story_id_of`),
/// or says which form was expected.
pub fn parse_story_id(s: &str) -> (r: Result<i64, Error>)
    ensures
        match r {
            Ok(id) => story_id_of(s@) == Some(id),
            Err(e) => story_id_of(s@).is_none() && e.message@ == (if has_sc_prefix(s@) {
                "Invalid story ID format. Expected 'sc-N' where N is a number"@
            } else {
                "Invalid story ID format. Expected a number or 'sc-N' format"@
            }) && e.causes@.len() == 1 && e.causes@[0]@ == i64_parse_error(if has_sc_prefix(s@) {
                s@.skip(3)
            } else {
                s@
            }),
        },
{
    let cs = chars_of(s);
    let prefixed = cs.len() >= 3 && crate::text::eq_ignore_ascii_case_str(
        string_of(&cs.as_slice()[0..3]).as_str(),
        "sc-",
    );
    proof {
        if cs.len() >= 3 {
            assert(cs@.subrange(0, 3) =~= s@.take(3));
        }
    }
    if prefixed {
        let rest = string_of(&cs.as_slice()[3..cs.len()]);
        assert(cs@.subrange(3, cs@.len() as int) =~= s@.skip(3));
        match parse_i64_str(rest.as_str()) {
            Some(v) => Ok(v),
            None => Err(parse_failure(rest.as_str(), "Invalid story ID format. Expected 'sc-N' where N is a number")),
        }
    } else {
        match parse_i64_str(s) {
            Some(v) => Ok(v),
            None => Err(parse_failure(s, "Invalid story ID format. Expected a number or 'sc-N' format")),
        }
    }
}

/// The story id a `comment` command is given: `42` or `sc-42`.
pub open spec fn comment_story_id_of(s: Seq<char>) -> Option<i64> {
    if s.len() >= 3 && s.take(3) == "sc-"@ {
        parse_i64(s.skip(3))
    } else {
        parse_i64(s)
    }
}

/// Reads the story id of a `comment` command (see `comment_story_id_of`).
pub fn parse_comment_story_id(s: &str) -> (r: Result<i64, Error>)
    ensures
        match r {
            Ok(id) => comment_story_id_of(s@) == Some(id),
            Err(e) => comment_story_id_of(s@).is_none() && e.message@ == "Invalid story ID: "@ + s@
                && e.causes@.len() == 1 && e.causes@[0]@ == i64_parse_error(
                if s@.len() >= 3 && s@.take(3) == "sc-"@ {
                    s@.skip(3)
                } else {
                    s@
                },
            ),
        },
{
    proof {
        reveal_strlit("sc-");
    }
    let cs = chars_of(s);
    let prefixed = cs.len() >= 3 && cs[0] == 's' && cs[1] == 'c' && cs[2] == '-';
    proof {
        if cs.len() >= 3 {
            assert(prefixed == (s@.take(3) == "sc-"@)) by {
                if s@.take(3) == "sc-"@ {
                    assert(s@.take(3)[0] == 's' && s@.take(3)[1] == 'c' && s@.take(3)[2] == '-');
                }
                if prefixed {
                    assert(s@.take(3) =~= "sc-"@);
                }
            }
        }
    }
    let digits = if prefixed {
        let rest = string_of(&cs.as_slice()[3..cs.len()]);
        assert(cs@.subrange(3, cs@.len() as int) =~= s@.skip(3));
        rest
    } else {
        String::from_str(s)
    };
    match parse_i64_str(digits.as_str()) {
        Some(v) => Ok(v),
        None => Err(parse_failure(digits.as_str(), concat("Invalid story ID: ", s).as_str())),
    }
}

/// A text with every leading copy of a prefix removed.
pub open spec fn strip_all(s: Seq<char>, prefix: Seq<char>) -> Seq<char>
    decreases s.len(),
{
    if prefix.len() > 0 && s.len() >= prefix.len() && s.take(prefix.len() as int) == prefix {
        strip_all(s.skip(prefix.len() as int), prefix)
    } else {
        s
    }
}

/// The story id a `branch` command is given: any leading `sc-`s, then any
/// leading `SC-`s, removed.
pub open spec fn branch_story_id_of(s: Seq<char>) -> Option<i64> {
    parse_i64(strip_all(strip_all(s, "sc-"@), "SC-"@))
}

/// Removes every leading copy of a three-character prefix.
fn strip_prefixes(s: &Vec<char>, p0: char, p1: char, p2: char) -> (r: Vec<char>)
    ensures
        r@ == strip_all(s@, seq![p0, p1, p2]),
{
    let ghost prefix = seq![p0, p1, p2];
    let mut i: usize = 0;
    assert(s@.skip(0) =~= s@);
    while s.len() - i >= 3 && s[i] == p0 && s[i + 1] == p1 && s[i + 2] == p2
        invariant
            i <= s@.len(),
            prefix == seq![p0, p1, p2],
            strip_all(s@, prefix) == strip_all(s@.skip(i as int), prefix),
        decreases s@.len() - i,
    {
        proof {
            let t = s@.skip(i as int);
            assert(t.take(3) =~= prefix);
            assert(t.skip(3) =~= s@.skip(i + 3));
        }
        i = i + 3;
    }
    proof {
        let t = s@.skip(i as int);
        if t.len() >= 3 && t.take(3) == prefix {
            assert(t.take(3)[0] == s@[i as int]);
            assert(t.take(3)[1] == s@[i + 1]);
            assert(t.take(3)[2] == s@[i + 2]);
        }
        assert(strip_all(t, prefix) == t);
    }
    let mut r: Vec<char> = Vec::new();
    let mut k: usize = i;
    while k < s.len()
        invariant
            i <= k <= s@.len(),
            r@ == s@.subrange(i as int, k as int),
        decreases s@.len() - k,
    {
        r.push(s[k]);
        assert(s@.subrange(i as int, k + 1) =~= s@.subrange(i as int, k as int).push(s@[k as int]));
        k = k + 1;
    }
    assert(s@.subrange(i as int, s@.len() as int) =~= s@.skip(i as int));
    r
}

/// Reads the story id of a `branch` command (see `branch_story_id_of`).
pub fn parse_branch_story_id(s: &str) -> (r: Result<i64, Error>)
    ensures
        match r {
            Ok(id) => branch_story_id_of(s@) == Some(id),
            Err(e) => branch_story_id_of(s@).is_none() && e.message@ == "Invalid story ID: "@ + s@
                && e.causes@.len() == 1 && e.causes@[0]@ == i64_parse_error(
                strip_all(strip_all(s@, "sc-"@), "SC-"@),
            ),
        },
{
    proof {
        reveal_strlit("sc-");
        reveal_strlit("SC-");
        assert("sc-"@ =~= seq!['s', 'c', '-']);
        assert("SC-"@ =~= seq!['S', 'C', '-']);
    }
    let cs = chars_of(s);
    let a = strip_prefixes(&cs, 's', 'c', '-');
    let b = strip_prefixes(&a, 'S', 'C', '-');
    let t = string_of(b.as_slice());
    match parse_i64_str(t.as_str()) {
        Some(v) => Ok(v),
        None => Err(parse_failure(t.as_str(), concat("Invalid story ID: ", s).as_str())),
    }
}

// ---------------------------------------------------------------------------
// Credentials

/// The settings of the workspace a command names, or an error saying it
/// could not be had.
pub fn named_workspace(config: &Config, name: &str) -> (r: Result<WorkspaceConfig, Error>)
    ensures
        match config.lookup(name@) {
            Some(c) => r == Ok::<WorkspaceConfig, Error>(c),
            None => r matches Err(e) && e.message@ == "Failed to get workspace '"@ + name@ + "'"@
                && e.causes@.len() == 1 && e.causes@[0]@ == "Workspace '"@ + name@ + "' not found in config"@,
        },
{
    match config.get_workspace(name) {
        Ok(w) => Ok(w.clone()),
        Err(e) => {
            let m = concat(concat("Failed to get workspace '", name).as_str(), "'");
            let r = e.context(m.as_str());
            proof {
                assert(r.causes@.len() == 1);
            }
            Err(r)
        },
    }
}

/// The settings of the default workspace, when a command names neither a
/// workspace nor enough arguments: the configuration file may be missing
/// (`None`), name no default, or lack the default's settings. The view
/// and show commands, which also take a user name, say so in their errors.
pub fn default_workspace(config: Option<&Config>, with_username: bool) -> (r: Result<WorkspaceConfig, Error>)
    ensures
        match config {
            None => r matches Err(e) && e.message@ == (if with_username {
                "No configuration file found. Use --workspace to create one or provide --token and username"@
            } else {
                "No configuration file found. Use --workspace to create one or provide --token"@
            }),
            Some(c) => {
                let d = if c.default_workspace is Some && c.lookup(c.default_workspace->0@) is Some {
                    c.default_workspace
                } else if c.workspaces@.len() == 1 {
                    Some(c.workspaces@[0])
                } else {
                    None
                };
                match d {
                    None => r matches Err(e) && e.message@ == (if with_username {
                        "No default workspace configured. Use --workspace to specify one or provide --token and username"@
                    } else {
                        "No default workspace configured. Use --workspace to specify one or provide --token"@
                    }),
                    Some(name) => match c.lookup(name@) {
                        Some(w) => r == Ok::<WorkspaceConfig, Error>(w),
                        None => r matches Err(e) && e.message@ == "Failed to get default workspace '"@
                            + name@ + "'"@,
                    },
                }
            },
        },
{
    match config {
        None => {
            if with_username {
                Err(Error::new("No configuration file found. Use --workspace to create one or provide --token and username"))
            } else {
                Err(Error::new("No configuration file found. Use --workspace to create one or provide --token"))
            }
        },
        Some(c) => match c.get_default_workspace() {
            None => {
                if with_username {
                    Err(Error::new("No default workspace configured. Use --workspace to specify one or provide --token and username"))
                } else {
                    Err(Error::new("No default workspace configured. Use --workspace to specify one or provide --token"))
                }
            },
            Some(name) => match c.get_workspace(name.as_str()) {
                Ok(w) => Ok(w.clone()),
                Err(e) => {
                    let m = concat(concat("Failed to get default workspace '", name.as_str()).as_str(), "'");
                    Err(e.context(m.as_str()))
                },
            },
        },
    }
}

/// The token and user name given on the command line of `view` or `show`,
/// both needed there.
pub fn token_and_username(token: Option<String>, username: Option<String>) -> (r: Result<(String, String), Error>)
    ensures
        match (token, username) {
            (Some(t), Some(u)) => r == Ok::<(String, String), Error>((t, u)),
            (None, _) => r matches Err(e) && e.message@ == "Either --token or --workspace must be provided"@,
            (Some(_), None) => r matches Err(e) && e.message@
                == "Either username or --workspace must be provided"@,
        },
{
    match token {
        None => Err(Error::new("Either --token or --workspace must be provided")),
        Some(t) => match username {
            None => Err(Error::new("Either username or --workspace must be provided")),
            Some(u) => Ok((t, u)),
        },
    }
}

// ---------------------------------------------------------------------------
// Searching

/// The query of `view` and `show`: the given search, else the user filter
/// (none with `all`, `requester:` with `requester`, `owner:` otherwise),
/// the type filter when a type is given, and `is:story`, joined by spaces.
pub open spec fn search_query(
    search: Option<String>,
    all: bool,
    requester: bool,
    username: Seq<char>,
    story_type: Option<String>,
) -> Seq<char> {
    match search {
        Some(q) => q@,
        None => {
            let user: Seq<Seq<char>> = if all {
                seq![]
            } else if requester {
                seq!["requester:"@ + username]
            } else {
                seq!["owner:"@ + username]
            };
            let kind: Seq<Seq<char>> = match story_type {
                Some(t) => seq!["type:"@ + t@],
                None => seq![],
            };
            join(user + kind + seq!["is:story"@], " "@)
        },
    }
}

/// Builds the search query (see `search_query`).
pub fn build_query(
    search: Option<String>,
    all: bool,
    requester: bool,
    username: &str,
    story_type: Option<String>,
) -> (r: String)
    ensures
        r@ == search_query(search, all, requester, username@, story_type),
{
    match search {
        Some(q) => q,
        None => {
            let mut parts: Vec<String> = Vec::new();
            if all {
            } else if requester {
                parts.push(concat("requester:", username));
            } else {
                parts.push(concat("owner:", username));
            }
            let ghost user = views(parts@);
            assert(user =~= (if all {
                seq![]
            } else if requester {
                seq!["requester:"@ + username@]
            } else {
                seq!["owner:"@ + username@]
            }));
            match &story_type {
                Some(t) => {
                    parts.push(concat("type:", t.as_str()));
                },
                None => {},
            }
            let ghost kind: Seq<Seq<char>> = match story_type {
                Some(t) => seq!["type:"@ + t@],
                None => seq![],
            };
            assert(views(parts@) =~= user + kind);
            parts.push(String::from_str("is:story"));
            assert(views(parts@) =~= user + kind + seq!["is:story"@]);
            join_strings(&parts, " ")
        },
    }
}

/// The stories of a page that join the loaded ones: in order, those whose
/// ids are not loaded yet (nor earlier on the page), until `room` have
/// joined.
pub open spec fn page_additions(loaded: Seq<StoryView>, page: Seq<StoryView>, room: nat) -> Seq<StoryView>
    decreases page.len(),
{
    if room == 0 || page.len() == 0 {
        Seq::empty()
    } else if has_story_id(loaded, page[0].id) {
        page_additions(loaded, page.drop_first(), room)
    } else {
        seq![page[0]] + page_additions(loaded.push(page[0]), page.drop_first(), (room - 1) as nat)
    }
}

/// Adds a page of search results to the loaded stories, at most `room` of
/// them, skipping ids already loaded; gives how many were added.
pub fn add_page(stories: &mut Vec<Story>, page: Vec<Story>, room: usize) -> (added: usize)
    ensures
        final(stories).deep_view() == old(stories).deep_view() + page_additions(
            old(stories).deep_view(),
            page.deep_view(),
            room as nat,
        ),
        added == page_additions(old(stories).deep_view(), page.deep_view(), room as nat).len(),
{
    let ghost base = stories.deep_view();
    let ghost p = page.deep_view();
    let mut added: usize = 0;
    let mut i: usize = 0;
    assert(p.skip(0) =~= p);
    while i < page.len() && added < room
        invariant
            i <= p.len(),
            added <= room,
            p == page.deep_view(),
            base + page_additions(base, p, room as nat) == stories.deep_view() + page_additions(
                stories.deep_view(),
                p.skip(i as int),
                (room - added) as nat,
            ),
            added + page_additions(stories.deep_view(), p.skip(i as int), (room - added) as nat).len()
                == page_additions(base, p, room as nat).len(),
        decreases p.len() - i,
    {
        let ghost cur = stories.deep_view();
        let ghost rest = p.skip(i as int);
        assert(rest[0] == page@[i as int]@);
        assert(rest.drop_first() =~= p.skip(i + 1));
        if !contains_story_id(stories, page[i].id) {
            stories.push(page[i].clone());
            assert(stories.deep_view() =~= cur.push(page@[i as int]@));
            assert(cur + page_additions(cur, rest, (room - added) as nat) =~= stories.deep_view()
                + page_additions(stories.deep_view(), p.skip(i + 1), (room - added - 1) as nat));
            added = added + 1;
        }
        i = i + 1;
    }
    proof {
        let rest = p.skip(i as int);
        if i >= p.len() {
            assert(rest.len() == 0);
        }
        assert(page_additions(stories.deep_view(), rest, (room - added) as nat) =~= Seq::<StoryView>::empty());
        assert(stories.deep_view() + Seq::<StoryView>::empty() =~= stories.deep_view());
    }
    added
}

/// Whether `view` fetches another page: while under the limit, with a next
/// page, and when the last page added something.
pub fn keep_paging(loaded: usize, limit: usize, has_next: bool, added: usize) -> (r: bool)
    ensures
        r == (loaded < limit && has_next && added > 0),
{
    !(loaded >= limit || !has_next) && !(added == 0 && has_next)
}

/// The end of the next window of `show`: up to `page_size` stories from
/// `batch_index` on, within the fetched batch.
pub fn show_window_end(batch_index: usize, page_size: usize, batch_len: usize) -> (r: usize)
    requires
        batch_index <= batch_len,
    ensures
        r == (if batch_index + page_size < batch_len {
            batch_index + page_size
        } else {
            batch_len as int
        }),
{
    if page_size < batch_len - batch_index {
        batch_index + page_size
    } else {
        batch_len
    }
}

/// Whether `show` has more to offer: stories left in the batch, or a next
/// page.
pub fn more_to_show(batch_index: usize, batch_len: usize, has_next_page: bool) -> (r: bool)
    ensures
        r == (batch_index < batch_len || has_next_page),
{
    batch_index < batch_len || has_next_page
}

// ---------------------------------------------------------------------------
// What is shown

/// A member as shown: the name, then the mention name in parentheses.
pub fn member_display_name(name: &str, mention_name: &str) -> (r: String)
    ensures
        r@ == name@ + " ("@ + mention_name@ + ")"@,
{
    let a = concat(name, " (");
    let b = concat(a.as_str(), mention_name);
    concat(b.as_str(), ")")
}

/// The first state of the first workflow, if any.
pub open spec fn first_state(ws: Seq<WorkflowView>) -> Option<i64> {
    if ws.len() > 0 && ws[0].states.len() > 0 {
        Some(ws[0].states[0].id)
    } else {
        None
    }
}

/// The state new stories start in: the first state of the first workflow.
pub fn first_state_id(workflows: &Vec<Workflow>) -> (r: Option<i64>)
    ensures
        r == first_state(workflows.deep_view()),
{
    if workflows.len() > 0 && workflows[0].states.len() > 0 {
        Some(workflows[0].states[0].id)
    } else {
        None
    }
}

/// The state a command-line story is created in, or the error when the
/// workspace has no workflow with a state.
pub fn initial_state_id(workflows: &Vec<Workflow>) -> (r: Result<i64, Error>)
    ensures
        match first_state(workflows.deep_view()) {
            Some(id) => r == Ok::<i64, Error>(id),
            None => r matches Err(e) && e.message@ == "No workflows found in the workspace"@,
        },
{
    match first_state_id(workflows) {
        Some(id) => Ok(id),
        None => Err(Error::new("No workflows found in the workspace")),
    }
}

/// The state a story created on the board starts in: the first state of
/// the first workflow, else the default.
pub fn board_state_id(workflows: &Vec<Workflow>) -> (r: i64)
    ensures
        r == (match first_state(workflows.deep_view()) {
            Some(id) => id,
            None => DEFAULT_STATE_ID,
        }),
{
    match first_state_id(workflows) {
        Some(id) => id,
        None => DEFAULT_STATE_ID,
    }
}

/// The emoji and terminal colour shown for a story type.
pub open spec fn type_style(t: Seq<char>) -> (Seq<char>, Seq<char>) {
    if t == "feature"@ {
        ("✨"@, "\x1b[32m"@)
    } else if t == "bug"@ {
        ("🐞"@, "\x1b[31m"@)
    } else if t == "chore"@ {
        ("⚙️"@, "\x1b[34m"@)
    } else {
        ("📝"@, "\x1b[37m"@)
    }
}

/// The emoji and terminal colour shown for a story type (see `type_style`).
pub fn type_icon(story_type: &str) -> (r: (&'static str, &'static str))
    ensures
        (r.0@, r.1@) == type_style(story_type@),
{
    let t = String::from_str(story_type);
    if t == String::from_str("feature") {
        ("✨", "\x1b[32m")
    } else if t == String::from_str("bug") {
        ("🐞", "\x1b[31m")
    } else if t == String::from_str("chore") {
        ("⚙️", "\x1b[34m")
    } else {
        ("📝", "\x1b[37m")
    }
}

/// The emoji shown for a state whose name is already lower-cased, by the
/// words it holds: to do or backlog, progress or doing, review, done or
/// complete.
pub open spec fn lower_state_mark(n: Seq<char>) -> Seq<char> {
    if contains_ignore_case(n, "todo"@) || contains_ignore_case(n, "backlog"@) {
        "📋"@
    } else if contains_ignore_case(n, "progress"@) || contains_ignore_case(n, "doing"@) {
        "🔄"@
    } else if contains_ignore_case(n, "review"@) {
        "👀"@
    } else if contains_ignore_case(n, "done"@) || contains_ignore_case(n, "complete"@) {
        "✅"@
    } else {
        "📌"@
    }
}

/// The emoji shown for a state, by the words its lower-cased name holds
/// (see `lower_state_mark`).
pub open spec fn state_mark(name: Seq<char>) -> Seq<char> {
    lower_state_mark(lowercase(name))
}

/// The emoji shown for a state whose name is already lower-cased (see
/// `lower_state_mark`).
pub fn lower_state_emoji(n: &str) -> (r: &'static str)
    ensures
        r@ == lower_state_mark(n@),
{
    if contains_ignore_case_str(n, "todo") || contains_ignore_case_str(n, "backlog") {
        "📋"
    } else if contains_ignore_case_str(n, "progress") || contains_ignore_case_str(n, "doing") {
        "🔄"
    } else if contains_ignore_case_str(n, "review") {
        "👀"
    } else if contains_ignore_case_str(n, "done") || contains_ignore_case_str(n, "complete") {
        "✅"
    } else {
        "📌"
    }
}

/// The emoji shown for a state (see `state_mark`).
pub fn state_emoji(state_name: &str) -> (r: &'static str)
    ensures
        r@ == state_mark(state_name@),
{
    let n = to_lowercase(state_name);
    lower_state_emoji(n.as_str())
}

// ---------------------------------------------------------------------------
// The comment typed at the prompt

/// A comment typed line by line: it ends at the end of input or at the
/// second empty line in a row, which is not kept.
pub struct CommentInput {
    /// The lines read, each with its line break.
    pub lines: Vec<String>,
    /// How many empty lines in a row were read last.
    pub empty_count: usize,
}

impl CommentInput {
    pub open spec fn wf(&self) -> bool {
        self.empty_count < 2
    }

    /// Nothing typed yet.
    pub fn new() -> (r: CommentInput)
        ensures
            r.wf(),
            r.lines@.len() == 0,
            r.empty_count == 0,
    {
        CommentInput { lines: Vec::new(), empty_count: 0 }
    }

    /// Takes one line as read, with its line break; tells whether the
    /// comment ended (the line was a second empty line in a row).
    pub fn feed(&mut self, line: &str) -> (done: bool)
        requires
            old(self).wf(),
        ensures
            done == (line@ == "\n"@ && old(self).empty_count == 1),
            done ==> final(self).lines@ == old(self).lines@,
            !done ==> final(self).wf() && views(final(self).lines@) == views(old(self).lines@).push(line@)
                && final(self).empty_count == (if line@ == "\n"@ {
                old(self).empty_count + 1
            } else {
                0
            }),
    {
        proof {
            reveal_strlit("\n");
        }
        let empty = String::from_str(line) == String::from_str("\n");
        if empty {
            if self.empty_count >= 1 {
                return true;
            }
            self.empty_count = self.empty_count + 1;
        } else {
            self.empty_count = 0;
        }
        let ghost before = views(self.lines@);
        self.lines.push(String::from_str(line));
        assert(views(self.lines@) =~= before.push(line@));
        false
    }

    /// The comment: the lines joined, trimmed.
    pub fn finish(&self) -> (r: String)
        ensures
            r@ == trim(join(views(self.lines@), Seq::empty())),
    {
        let joined = join_strings(&self.lines, "");
        proof {
            reveal_strlit("");
            assert(""@ =~= Seq::<char>::empty());
        }
        trim_str(joined.as_str())
    }
}

/// Without search text, a story type always reaches the query, whatever
/// the user filter (all, requester or owner): the query ends with
/// `type:<story type> is:story`.
pub proof fn lemma_query_keeps_the_type(all: bool, requester: bool, username: Seq<char>, t: String)
    ensures
        exists|p: Seq<char>|
            search_query(None, all, requester, username, Some(t)) == p + ("type:"@ + t@) + " is:story"@,
{
    let user: Seq<Seq<char>> = if all {
        seq![]
    } else if requester {
        seq!["requester:"@ + username]
    } else {
        seq!["owner:"@ + username]
    };
    reveal_strlit(" ");
    reveal_strlit("is:story");
    reveal_strlit(" is:story");
    let parts = user + seq!["type:"@ + t@] + seq!["is:story"@];
    let q = search_query(None, all, requester, username, Some(t));
    assert(q == join(parts, " "@));
    assert(parts.drop_last() =~= user + seq!["type:"@ + t@]);
    assert(parts.last() == "is:story"@);
    let front = user + seq!["type:"@ + t@];
    assert(front.drop_last() =~= user);
    assert(front.last() == "type:"@ + t@);
    assert(parts.len() >= 2);
    assert(join(parts, " "@) == join(front, " "@) + " "@ + "is:story"@);
    if all {
        assert(front =~= seq!["type:"@ + t@]);
        assert(join(front, " "@) == "type:"@ + t@);
        assert(q =~= Seq::<char>::empty() + ("type:"@ + t@) + " is:story"@);
    } else {
        assert(user.len() == 1);
        assert(front.len() == 2);
        assert(join(user, " "@) == user[0]);
        assert(join(front, " "@) == join(user, " "@) + " "@ + ("type:"@ + t@));
        let p = join(user, " "@) + " "@;
        assert(q =~= p + ("type:"@ + t@) + " is:story"@);
    }
}

} // verus!

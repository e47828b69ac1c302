//! The text of the story detail view: its lines, the links in it, and the
//! part of it a window of a given height shows.
use crate::api::{Branch, Comment, Commit, Epic, PullRequest, Story, StoryView};
use crate::text::{chars_of, concat, decimal, int_to_text, i64_to_text, join, join_strings, string_of, u64_to_text, views};
use crate::ui::app::{cached_name, App};
use crate::ui::popups::ClickableUrl;
use vstd::prelude::*;

verus! {

/// How a piece of the detail text is shown.
#[derive(Clone, Copy, Debug, PartialEq, Eq, Structural)]
pub enum Tone {
    Plain,
    Label,
    EpicName,
    Link,
    BranchName,
    Title,
    Merged,
    Closed,
    Draft,
    Open,
    Hash,
    Muted,
    Author,
}

/// A piece of a line of the detail text.
pub struct Segment {
    pub text: String,
    pub tone: Tone,
}

/// The detail text: its lines, each made of pieces, and its links, each
/// with the row (the index of its line) and the columns it spans.
pub struct DetailText {
    pub lines: Vec<Vec<Segment>>,
    pub links: Vec<ClickableUrl>,
}

/// The detail text as a value.
pub struct Doc {
    pub lines: Seq<Seq<(Seq<char>, Tone)>>,
    pub links: Seq<(Seq<char>, u16, u16, u16)>,
}

pub open spec fn line_view(l: Seq<Segment>) -> Seq<(Seq<char>, Tone)> {
    l.map_values(|s: Segment| (s.text@, s.tone))
}

pub open spec fn lines_view(ls: Seq<Vec<Segment>>) -> Seq<Seq<(Seq<char>, Tone)>> {
    ls.map_values(|l: Vec<Segment>| line_view(l@))
}

pub open spec fn link_view(c: ClickableUrl) -> (Seq<char>, u16, u16, u16) {
    (c.url@, c.row, c.start_col, c.end_col)
}

pub open spec fn links_view(cs: Seq<ClickableUrl>) -> Seq<(Seq<char>, u16, u16, u16)> {
    cs.map_values(|c: ClickableUrl| link_view(c))
}

pub open spec fn doc_of(t: DetailText) -> Doc {
    Doc { lines: lines_view(t.lines@), links: links_view(t.links@) }
}

/// A number as a terminal coordinate: its last 16 bits.
pub open spec fn wrap16(n: int) -> u16 {
    (n % 65536) as u16
}

/// The number of bytes of a text in UTF-8.
pub open spec fn bytes(s: Seq<char>) -> usize {
    vstd::utf8::encode_utf8(s).len() as usize
}

/// The text with one more line.
pub open spec fn put(d: Doc, l: Seq<(Seq<char>, Tone)>) -> Doc {
    Doc { lines: d.lines.push(l), links: d.links }
}

/// The text with one more line, which holds a link to `url` between the
/// columns `start` and `end`.
pub open spec fn put_link(d: Doc, l: Seq<(Seq<char>, Tone)>, url: Seq<char>, start: u16, end: u16) -> Doc {
    Doc { lines: d.lines.push(l), links: d.links.push((url, wrap16(d.lines.len() as int), start, end)) }
}

// ---------------------------------------------------------------------------
// Lines of a text

/// The lines of a text as `str::lines` gives them: split at each `'\n'`,
/// one `'\r'` before it dropped, and no last empty line after a final
/// `'\n'`; `cur` is the part of the current line read so far.
pub open spec fn lines_from(rest: Seq<char>, cur: Seq<char>) -> Seq<Seq<char>>
    decreases rest.len(),
{
    if rest.len() == 0 {
        if cur.len() == 0 {
            seq![]
        } else {
            seq![cur]
        }
    } else if rest[0] == '\n' {
        seq![if cur.len() > 0 && cur.last() == '\r' {
            cur.drop_last()
        } else {
            cur
        }] + lines_from(rest.drop_first(), seq![])
    } else {
        lines_from(rest.drop_first(), cur.push(rest[0]))
    }
}

/// The lines of a text (see `lines_from`).
pub open spec fn text_lines(s: Seq<char>) -> Seq<Seq<char>> {
    lines_from(s, seq![])
}

/// Splits a text into its lines (see `text_lines`).
pub fn text_lines_of(s: &str) -> (r: Vec<String>)
    ensures
        views(r@) == text_lines(s@),
{
    let cs = chars_of(s);
    let mut out: Vec<String> = Vec::new();
    let mut cur: Vec<char> = Vec::new();
    let mut i: usize = 0;
    assert(cs@.skip(0) =~= cs@);
    while i < cs.len()
        invariant
            i <= cs@.len(),
            cs@ == s@,
            views(out@) + lines_from(cs@.skip(i as int), cur@) == lines_from(s@, seq![]),
        decreases cs@.len() - i,
    {
        let ghost rest = cs@.skip(i as int);
        assert(rest.drop_first() =~= cs@.skip(i + 1));
        assert(rest[0] == cs@[i as int]);
        let c = cs[i];
        if c == '\n' {
            let ghost stripped = if cur@.len() > 0 && cur@.last() == '\r' {
                cur@.drop_last()
            } else {
                cur@
            };
            if cur.len() > 0 && cur[cur.len() - 1] == '\r' {
                cur.pop();
            }
            assert(cur@ =~= stripped);
            let ghost before = views(out@);
            out.push(string_of(cur.as_slice()));
            assert(views(out@) =~= before.push(stripped));
            assert(views(out@) + lines_from(cs@.skip(i + 1), seq![]) =~= before + (seq![stripped]
                + lines_from(rest.drop_first(), seq![])));
            cur = Vec::new();
            assert(cur@ =~= Seq::<char>::empty());
        } else {
            cur.push(c);
        }
        i = i + 1;
    }
    assert(cs@.skip(i as int) =~= Seq::<char>::empty());
    if cur.len() > 0 {
        let ghost before = views(out@);
        out.push(string_of(cur.as_slice()));
        assert(views(out@) =~= before + seq![cur@]);
    } else {
        assert(views(out@) =~= views(out@) + Seq::<Seq<char>>::empty());
    }
    out
}

// ---------------------------------------------------------------------------
// The window

/// The part of a text of `total` lines that a window of `height` lines
/// shows when scrolled by `offset`: the first and the end line, the
/// scrolling keeping the window full; and, when the text does not fit,
/// the page shown and the number of pages (as "n/m").
pub open spec fn window(total: int, height: int, offset: int) -> (int, int, Option<(int, int)>) {
    let visible = if total > height {
        height
    } else {
        total
    };
    let start = if offset < total - visible {
        offset
    } else {
        total - visible
    };
    (start, start + visible, if total > height {
        Some((start + 1, total - height + 1))
    } else {
        None
    })
}

/// Which lines of the detail text a window shows (see `window`).
pub fn detail_window(total: usize, height: usize, offset: usize) -> (r: (usize, usize, Option<(usize, usize)>))
    requires
        total < usize::MAX,
    ensures
        (r.0 as int, r.1 as int, match r.2 {
            Some(p) => Some((p.0 as int, p.1 as int)),
            None => None,
        }) == window(total as int, height as int, offset as int),
{
    let visible = if total > height {
        height
    } else {
        total
    };
    let start = if offset < total - visible {
        offset
    } else {
        total - visible
    };
    let pages = if total > height {
        Some((start + 1, total - height + 1))
    } else {
        None
    };
    (start, start + visible, pages)
}

/// The links that lie within the rows `start` to `end` (taken as terminal
/// coordinates), their rows counted from the window's top border.
pub open spec fn shown_links(ls: Seq<(Seq<char>, u16, u16, u16)>, start: u16, end: u16) -> Seq<
    (Seq<char>, u16, u16, u16),
>
    decreases ls.len(),
{
    if ls.len() == 0 {
        seq![]
    } else {
        let l = ls[0];
        let rest = shown_links(ls.drop_first(), start, end);
        if start <= l.1 && l.1 < end {
            seq![(l.0, (l.1 - start + 1) as u16, l.2, l.3)] + rest
        } else {
            rest
        }
    }
}

/// Keeps the links a window from line `start` to line `end` shows (see
/// `shown_links`).
pub fn visible_links(links: Vec<ClickableUrl>, start: usize, end: usize) -> (r: Vec<ClickableUrl>)
    ensures
        links_view(r@) == shown_links(links_view(links@), wrap16(start as int), wrap16(end as int)),
{
    let s: u16 = (start % 65536) as u16;
    let e: u16 = (end % 65536) as u16;
    let ghost all = links_view(links@);
    let mut out: Vec<ClickableUrl> = Vec::new();
    let mut links = links;
    let ghost mut i: int = 0;
    assert(all.skip(0) =~= all);
    while links.len() > 0
        invariant
            0 <= i <= all.len(),
            links_view(links@) == all.skip(i),
            links_view(out@) + shown_links(all.skip(i), s, e) == shown_links(all, s, e),
            s == wrap16(start as int),
            e == wrap16(end as int),
        decreases links@.len(),
    {
        let ghost rest = all.skip(i);
        assert(rest.drop_first() =~= all.skip(i + 1));
        let ghost lv = links@;
        let l = links.remove(0);
        assert(links_view(links@) =~= links_view(lv).drop_first());
        assert(link_view(l) == rest[0]);
        let ghost before = links_view(out@);
        if s <= l.row && l.row < e {
            let row = l.row - s + 1;
            out.push(ClickableUrl { url: l.url, row, start_col: l.start_col, end_col: l.end_col });
            assert(links_view(out@) =~= before.push((rest[0].0, (rest[0].1 - s + 1) as u16, rest[0].2, rest[0].3)));
            assert(links_view(out@) + shown_links(all.skip(i + 1), s, e) =~= before + shown_links(rest, s, e));
        } else {
            assert(links_view(out@) + shown_links(all.skip(i + 1), s, e) =~= before + shown_links(rest, s, e));
        }
        proof {
            i = i + 1;
        }
    }
    assert(all.skip(i) =~= Seq::<(Seq<char>, u16, u16, u16)>::empty());
    assert(links_view(out@) =~= links_view(out@) + Seq::<(Seq<char>, u16, u16, u16)>::empty());
    out
}

// ---------------------------------------------------------------------------
// The text of a story

/// The text with nothing in it.
pub open spec fn empty_doc() -> Doc {
    Doc { lines: seq![], links: seq![] }
}

pub open spec fn plain(t: Seq<char>) -> (Seq<char>, Tone) {
    (t, Tone::Plain)
}

pub open spec fn label(t: Seq<char>) -> (Seq<char>, Tone) {
    (t, Tone::Label)
}

/// The name the state table gives a state, or "Unknown".
pub open spec fn state_label(t: Seq<(i64, String)>, id: i64) -> Seq<char>
    decreases t.len(),
{
    if t.len() == 0 {
        "Unknown"@
    } else if t[0].0 == id {
        t[0].1@
    } else {
        state_label(t.drop_first(), id)
    }
}

/// The name of the first epic with this id, if any.
pub open spec fn epic_name(epics: Seq<Epic>, id: i64) -> Option<Seq<char>>
    decreases epics.len(),
{
    if epics.len() == 0 {
        None
    } else if epics[0].id == id {
        Some(epics[0].name@)
    } else {
        epic_name(epics.drop_first(), id)
    }
}

/// A member's cached name, or the id itself.
pub open spec fn member_name(cache: Seq<(String, String)>, id: Seq<char>) -> Seq<char> {
    match cached_name(cache, id) {
        Some(n) => n@,
        None => id,
    }
}

/// The owners as shown: their names joined by commas, or "Unassigned".
pub open spec fn owners_text(cache: Seq<(String, String)>, ids: Seq<String>) -> Seq<char> {
    if ids.len() == 0 {
        "Unassigned"@
    } else {
        join(ids.map_values(|id: String| member_name(cache, id@)), ", "@)
    }
}

/// The lines of the story's head: id, name, type, state, epic (when the
/// story has one that is listed), owners, and the description's title.
pub open spec fn head_doc(app: App, s: StoryView) -> Doc {
    let d = put(empty_doc(), seq![label("ID: "@), plain(int_to_text(s.id as int))]);
    let d = put(d, seq![]);
    let d = put(d, seq![label("Name: "@), plain(s.name@)]);
    let d = put(d, seq![]);
    let d = put(d, seq![label("Type: "@), plain(s.story_type@)]);
    let d = put(d, seq![]);
    let d = put(d, seq![label("State: "@), plain(state_label(app.workflow_state_map@, s.workflow_state_id))]);
    let d = put(d, seq![]);
    let d = match s.epic_id {
        Some(e) => match epic_name(app.epics@, e) {
            Some(n) => put(put(d, seq![label("Epic: "@), (n, Tone::EpicName)]), seq![]),
            None => d,
        },
        None => d,
    };
    let d = put(d, seq![label("Owners: "@), plain(owners_text(app.member_cache@, s.owner_ids))]);
    let d = put(d, seq![]);
    put(d, seq![label("Description:"@)])
}

/// One plain line for each of the lines, after an indent.
pub open spec fn plain_lines(d: Doc, ls: Seq<Seq<char>>, indent: Seq<char>) -> Doc
    decreases ls.len(),
{
    if ls.len() == 0 {
        d
    } else {
        plain_lines(put(d, seq![plain(indent + ls[0])]), ls.drop_first(), indent)
    }
}

/// The description's lines (or a note that there is none) and the line of
/// the story's link.
pub open spec fn body_doc(d: Doc, s: StoryView) -> Doc {
    let d = if s.description@.len() == 0 {
        put(d, seq![plain("No description available"@)])
    } else {
        plain_lines(d, text_lines(s.description@), seq![])
    };
    let d = put(d, seq![]);
    put_link(
        d,
        seq![label("URL: "@), (s.app_url@, Tone::Link)],
        s.app_url@,
        5,
        wrap16(5 + bytes(s.app_url@)),
    )
}

/// A line for each branch: its name and its link.
pub open spec fn branch_lines(d: Doc, bs: Seq<Branch>) -> Doc
    decreases bs.len(),
{
    if bs.len() == 0 {
        d
    } else {
        let b = bs[0];
        let start = wrap16(5 + bytes(b.name@));
        branch_lines(
            put_link(
                d,
                seq![plain("  "@), (b.name@, Tone::BranchName), plain(" - "@), (b.url@, Tone::Link)],
                b.url@,
                start,
                wrap16(start + bytes(b.url@)),
            ),
            bs.drop_first(),
        )
    }
}

/// How a pull request's state is shown.
pub open spec fn pr_status(p: PullRequest) -> (Seq<char>, Tone) {
    if p.merged {
        ("merged"@, Tone::Merged)
    } else if p.closed {
        ("closed"@, Tone::Closed)
    } else if p.draft {
        ("draft"@, Tone::Draft)
    } else {
        ("open"@, Tone::Open)
    }
}

/// Two lines for each pull request: its title and state, then its link.
pub open spec fn pr_lines(d: Doc, ps: Seq<PullRequest>) -> Doc
    decreases ps.len(),
{
    if ps.len() == 0 {
        d
    } else {
        let p = ps[0];
        let d = put(d, seq![plain("  "@), (p.title@, Tone::Title), plain(" ["@), pr_status(p), plain("]"@)]);
        pr_lines(
            put_link(d, seq![plain("    "@), (p.url@, Tone::Link)], p.url@, 4, wrap16(4 + bytes(p.url@))),
            ps.drop_first(),
        )
    }
}

/// A commit hash as shown: its first seven characters.
pub open spec fn short_hash(h: Seq<char>) -> Seq<char> {
    if h.len() > 7 {
        h.take(7)
    } else {
        h
    }
}

/// The first line of a message (the message itself when it has none).
pub open spec fn first_line(m: Seq<char>) -> Seq<char> {
    if text_lines(m).len() > 0 {
        text_lines(m)[0]
    } else {
        m
    }
}

/// Two lines for each commit: its short hash and first line, then its link.
pub open spec fn commit_lines(d: Doc, cs: Seq<Commit>) -> Doc
    decreases cs.len(),
{
    if cs.len() == 0 {
        d
    } else {
        let c = cs[0];
        let d = put(
            d,
            seq![plain("  "@), (short_hash(c.hash@), Tone::Hash), plain(" - "@), plain(first_line(c.message@))],
        );
        commit_lines(
            put_link(d, seq![plain("    "@), (c.url@, Tone::Link)], c.url@, 4, wrap16(4 + bytes(c.url@))),
            cs.drop_first(),
        )
    }
}

/// For each comment: its author and date, its lines indented, and an
/// empty line.
pub open spec fn comment_lines(d: Doc, cs: Seq<Comment>, cache: Seq<(String, String)>) -> Doc
    decreases cs.len(),
{
    if cs.len() == 0 {
        d
    } else {
        let c = cs[0];
        let d = put(d, seq![(member_name(cache, c.author_id@), Tone::Author), plain(" - "@), (c.created_at@, Tone::Muted)]);
        let d = plain_lines(d, text_lines(c.text@), "  "@);
        comment_lines(put(d, seq![]), cs.drop_first(), cache)
    }
}

/// The sections a story has: its branches, its pull requests, its first
/// five commits (with a note on how many more there are), its comments.
pub open spec fn sections_doc(d: Doc, s: StoryView, cache: Seq<(String, String)>) -> Doc {
    let d = if s.branches.len() > 0 {
        branch_lines(put(put(d, seq![]), seq![label("Git Branches:"@)]), s.branches)
    } else {
        d
    };
    let d = if s.pull_requests.len() > 0 {
        pr_lines(put(put(d, seq![]), seq![label("Pull Requests:"@)]), s.pull_requests)
    } else {
        d
    };
    let n = s.commits.len();
    let d = if n > 0 {
        let d = commit_lines(
            put(put(d, seq![]), seq![label("Recent Commits:"@)]),
            s.commits.take(if n > 5 {
                5
            } else {
                n as int
            }),
        );
        if n > 5 {
            put(d, seq![plain("  "@), ("... and "@ + decimal((n - 5) as nat) + " more commits"@, Tone::Muted)])
        } else {
            d
        }
    } else {
        d
    };
    if s.comments.len() > 0 {
        comment_lines(put(put(put(d, seq![]), seq![label("Comments:"@)]), seq![]), s.comments, cache)
    } else {
        d
    }
}

/// The detail text of a story.
pub open spec fn detail_doc(app: App, s: StoryView) -> Doc {
    sections_doc(body_doc(head_doc(app, s), s), s, app.member_cache@)
}

// ---------------------------------------------------------------------------
// Building the text

fn piece(text: String, tone: Tone) -> (r: Segment)
    ensures
        r.text == text,
        r.tone == tone,
{
    Segment { text, tone }
}

fn word(text: &str, tone: Tone) -> (r: Segment)
    ensures
        r.text@ == text@,
        r.tone == tone,
{
    Segment { text: String::from_str(text), tone }
}

fn line1(a: Segment) -> (r: Vec<Segment>)
    ensures
        line_view(r@) == seq![(a.text@, a.tone)],
{
    let ghost va = (a.text@, a.tone);
    let mut v: Vec<Segment> = Vec::new();
    v.push(a);
    assert(line_view(v@) =~= seq![va]);
    v
}

fn line2(a: Segment, b: Segment) -> (r: Vec<Segment>)
    ensures
        line_view(r@) == seq![(a.text@, a.tone), (b.text@, b.tone)],
{
    let ghost va = (a.text@, a.tone);
    let ghost vb = (b.text@, b.tone);
    let mut v: Vec<Segment> = Vec::new();
    v.push(a);
    v.push(b);
    assert(line_view(v@) =~= seq![va, vb]);
    v
}

fn line3(a: Segment, b: Segment, c: Segment) -> (r: Vec<Segment>)
    ensures
        line_view(r@) == seq![(a.text@, a.tone), (b.text@, b.tone), (c.text@, c.tone)],
{
    let ghost va = (a.text@, a.tone);
    let ghost vb = (b.text@, b.tone);
    let ghost vc = (c.text@, c.tone);
    let mut v: Vec<Segment> = Vec::new();
    v.push(a);
    v.push(b);
    v.push(c);
    assert(line_view(v@) =~= seq![va, vb, vc]);
    v
}

fn line4(a: Segment, b: Segment, c: Segment, d: Segment) -> (r: Vec<Segment>)
    ensures
        line_view(r@) == seq![(a.text@, a.tone), (b.text@, b.tone), (c.text@, c.tone), (d.text@, d.tone)],
{
    let ghost va = (a.text@, a.tone);
    let ghost vb = (b.text@, b.tone);
    let ghost vc = (c.text@, c.tone);
    let ghost vd = (d.text@, d.tone);
    let mut v: Vec<Segment> = Vec::new();
    v.push(a);
    v.push(b);
    v.push(c);
    v.push(d);
    assert(line_view(v@) =~= seq![va, vb, vc, vd]);
    v
}

fn line5(a: Segment, b: Segment, c: Segment, d: Segment, e: Segment) -> (r: Vec<Segment>)
    ensures
        line_view(r@) == seq![
            (a.text@, a.tone),
            (b.text@, b.tone),
            (c.text@, c.tone),
            (d.text@, d.tone),
            (e.text@, e.tone),
        ],
{
    let ghost va = (a.text@, a.tone);
    let ghost vb = (b.text@, b.tone);
    let ghost vc = (c.text@, c.tone);
    let ghost vd = (d.text@, d.tone);
    let ghost ve = (e.text@, e.tone);
    let mut v: Vec<Segment> = Vec::new();
    v.push(a);
    v.push(b);
    v.push(c);
    v.push(d);
    v.push(e);
    assert(line_view(v@) =~= seq![va, vb, vc, vd, ve]);
    v
}

fn push_line(t: &mut DetailText, l: Vec<Segment>)
    ensures
        doc_of(*final(t)) == put(doc_of(*old(t)), line_view(l@)),
{
    let ghost before = t.lines@;
    t.lines.push(l);
    assert(lines_view(t.lines@) =~= lines_view(before).push(line_view(l@)));
}

fn push_empty(t: &mut DetailText)
    ensures
        doc_of(*final(t)) == put(doc_of(*old(t)), seq![]),
{
    let l: Vec<Segment> = Vec::new();
    assert(line_view(l@) =~= Seq::<(Seq<char>, Tone)>::empty());
    push_line(t, l);
}

fn push_link(t: &mut DetailText, l: Vec<Segment>, url: String, start: u16, end: u16)
    ensures
        doc_of(*final(t)) == put_link(doc_of(*old(t)), line_view(l@), url@, start, end),
{
    let row: u16 = (t.lines.len() % 65536) as u16;
    let ghost links = t.links@;
    t.links.push(ClickableUrl { url, row, start_col: start, end_col: end });
    assert(links_view(t.links@) =~= links_view(links).push((url@, row, start, end)));
    push_line(t, l);
}

pub(crate) fn byte_len(s: &String) -> (r: usize)
    ensures
        r == bytes(s@),
{
    s.as_str().len()
}

fn wrap_sum(a: u16, b: usize) -> (r: u16)
    ensures
        r == wrap16(a + b),
{
    let r: u16 = ((a as u32 + (b % 65536) as u32) % 65536) as u16;
    proof {
        vstd::arithmetic::div_mod::lemma_small_mod(a as nat, 65536);
        vstd::arithmetic::div_mod::lemma_add_mod_noop(a as int, b as int, 65536);
    }
    r
}

pub(crate) fn state_label_of(t: &Vec<(i64, String)>, id: i64) -> (r: String)
    ensures
        r@ == state_label(t@, id),
{
    let mut i: usize = 0;
    assert(t@.skip(0) =~= t@);
    while i < t.len()
        invariant
            i <= t@.len(),
            state_label(t@.skip(i as int), id) == state_label(t@, id),
        decreases t@.len() - i,
    {
        assert(t@.skip(i as int)[0] == t@[i as int]);
        if t[i].0 == id {
            return t[i].1.clone();
        }
        assert(t@.skip(i as int).drop_first() =~= t@.skip(i + 1));
        i = i + 1;
    }
    assert(t@.skip(i as int) =~= Seq::<(i64, String)>::empty());
    String::from_str("Unknown")
}

pub(crate) fn epic_name_of(epics: &Vec<Epic>, id: i64) -> (r: Option<String>)
    ensures
        match r {
            Some(n) => epic_name(epics@, id) == Some(n@),
            None => epic_name(epics@, id) is None,
        },
{
    let mut i: usize = 0;
    assert(epics@.skip(0) =~= epics@);
    while i < epics.len()
        invariant
            i <= epics@.len(),
            epic_name(epics@.skip(i as int), id) == epic_name(epics@, id),
        decreases epics@.len() - i,
    {
        assert(epics@.skip(i as int)[0] == epics@[i as int]);
        if epics[i].id == id {
            return Some(epics[i].name.clone());
        }
        assert(epics@.skip(i as int).drop_first() =~= epics@.skip(i + 1));
        i = i + 1;
    }
    assert(epics@.skip(i as int) =~= Seq::<Epic>::empty());
    None
}

fn add_plain_lines(t: &mut DetailText, ls: &Vec<String>, indent: &str)
    ensures
        doc_of(*final(t)) == plain_lines(doc_of(*old(t)), views(ls@), indent@),
{
    let ghost all = views(ls@);
    let ghost d0 = doc_of(*t);
    let mut i: usize = 0;
    assert(all.skip(0) =~= all);
    while i < ls.len()
        invariant
            i <= ls@.len(),
            all == views(ls@),
            plain_lines(doc_of(*t), all.skip(i as int), indent@) == plain_lines(d0, all, indent@),
        decreases ls@.len() - i,
    {
        assert(all.skip(i as int)[0] == ls@[i as int]@);
        assert(all.skip(i as int).drop_first() =~= all.skip(i + 1));
        let text = concat(indent, ls[i].as_str());
        push_line(t, line1(piece(text, Tone::Plain)));
        i = i + 1;
    }
    assert(all.skip(i as int) =~= Seq::<Seq<char>>::empty());
}

fn add_branches(t: &mut DetailText, bs: &Vec<Branch>)
    ensures
        doc_of(*final(t)) == branch_lines(doc_of(*old(t)), bs@),
{
    let ghost d0 = doc_of(*t);
    let mut i: usize = 0;
    assert(bs@.skip(0) =~= bs@);
    while i < bs.len()
        invariant
            i <= bs@.len(),
            branch_lines(doc_of(*t), bs@.skip(i as int)) == branch_lines(d0, bs@),
        decreases bs@.len() - i,
    {
        assert(bs@.skip(i as int)[0] == bs@[i as int]);
        assert(bs@.skip(i as int).drop_first() =~= bs@.skip(i + 1));
        let b = &bs[i];
        let start = wrap_sum(5, byte_len(&b.name));
        let end = wrap_sum(start, byte_len(&b.url));
        let l = line4(
            word("  ", Tone::Plain),
            piece(b.name.clone(), Tone::BranchName),
            word(" - ", Tone::Plain),
            piece(b.url.clone(), Tone::Link),
        );
        push_link(t, l, b.url.clone(), start, end);
        i = i + 1;
    }
    assert(bs@.skip(i as int) =~= Seq::<Branch>::empty());
}

fn status_piece(p: &PullRequest) -> (r: Segment)
    ensures
        (r.text@, r.tone) == pr_status(*p),
{
    if p.merged {
        word("merged", Tone::Merged)
    } else if p.closed {
        word("closed", Tone::Closed)
    } else if p.draft {
        word("draft", Tone::Draft)
    } else {
        word("open", Tone::Open)
    }
}

fn add_pull_requests(t: &mut DetailText, ps: &Vec<PullRequest>)
    ensures
        doc_of(*final(t)) == pr_lines(doc_of(*old(t)), ps@),
{
    let ghost d0 = doc_of(*t);
    let mut i: usize = 0;
    assert(ps@.skip(0) =~= ps@);
    while i < ps.len()
        invariant
            i <= ps@.len(),
            pr_lines(doc_of(*t), ps@.skip(i as int)) == pr_lines(d0, ps@),
        decreases ps@.len() - i,
    {
        assert(ps@.skip(i as int)[0] == ps@[i as int]);
        assert(ps@.skip(i as int).drop_first() =~= ps@.skip(i + 1));
        let p = &ps[i];
        let title = line5(
            word("  ", Tone::Plain),
            piece(p.title.clone(), Tone::Title),
            word(" [", Tone::Plain),
            status_piece(p),
            word("]", Tone::Plain),
        );
        push_line(t, title);
        let end = wrap_sum(4, byte_len(&p.url));
        let l = line2(word("    ", Tone::Plain), piece(p.url.clone(), Tone::Link));
        push_link(t, l, p.url.clone(), 4, end);
        i = i + 1;
    }
    assert(ps@.skip(i as int) =~= Seq::<PullRequest>::empty());
}

fn short_hash_of(h: &String) -> (r: String)
    ensures
        r@ == short_hash(h@),
{
    let cs = chars_of(h.as_str());
    if cs.len() > 7 {
        let mut out: Vec<char> = Vec::new();
        let mut i: usize = 0;
        while i < 7
            invariant
                i <= 7,
                cs@.len() > 7,
                out@ == cs@.take(i as int),
            decreases 7 - i,
        {
            out.push(cs[i]);
            assert(cs@.take(i + 1) =~= cs@.take(i as int).push(cs@[i as int]));
            i = i + 1;
        }
        string_of(out.as_slice())
    } else {
        h.clone()
    }
}

fn first_line_of(m: &String) -> (r: String)
    ensures
        r@ == first_line(m@),
{
    let ls = text_lines_of(m.as_str());
    if ls.len() > 0 {
        assert(views(ls@)[0] == ls@[0]@);
        ls[0].clone()
    } else {
        m.clone()
    }
}

fn add_commits(t: &mut DetailText, cs: &Vec<Commit>, n: usize)
    requires
        n <= cs@.len(),
    ensures
        doc_of(*final(t)) == commit_lines(doc_of(*old(t)), cs@.take(n as int)),
{
    let ghost d0 = doc_of(*t);
    let ghost all = cs@.take(n as int);
    let mut i: usize = 0;
    assert(all.skip(0) =~= all);
    while i < n
        invariant
            i <= n <= cs@.len(),
            all == cs@.take(n as int),
            commit_lines(doc_of(*t), all.skip(i as int)) == commit_lines(d0, all),
        decreases n - i,
    {
        assert(all.skip(i as int)[0] == cs@[i as int]);
        assert(all.skip(i as int).drop_first() =~= all.skip(i + 1));
        let c = &cs[i];
        let l = line4(
            word("  ", Tone::Plain),
            piece(short_hash_of(&c.hash), Tone::Hash),
            word(" - ", Tone::Plain),
            piece(first_line_of(&c.message), Tone::Plain),
        );
        push_line(t, l);
        let end = wrap_sum(4, byte_len(&c.url));
        let l = line2(word("    ", Tone::Plain), piece(c.url.clone(), Tone::Link));
        push_link(t, l, c.url.clone(), 4, end);
        i = i + 1;
    }
    assert(all.skip(i as int) =~= Seq::<Commit>::empty());
}

fn add_description(t: &mut DetailText, story: &Story)
    ensures
        doc_of(*final(t)) == body_doc(doc_of(*old(t)), story@),
{
    if story.description.as_str().is_empty() {
        push_line(t, line1(word("No description available", Tone::Plain)));
    } else {
        let ls = text_lines_of(story.description.as_str());
        proof {
            reveal_strlit("");
            assert(""@ =~= Seq::<char>::empty());
        }
        add_plain_lines(t, &ls, "");
    }
    push_empty(t);
    let end = wrap_sum(5, byte_len(&story.app_url));
    let l = line2(word("URL: ", Tone::Label), piece(story.app_url.clone(), Tone::Link));
    push_link(t, l, story.app_url.clone(), 5, end);
}

impl App {
    fn member_name_of(&self, id: &String) -> (r: String)
        ensures
            r@ == member_name(self.member_cache@, id@),
    {
        let mut ids: Vec<String> = Vec::new();
        ids.push(id.clone());
        let names = self.get_owner_names(&ids);
        assert(ids@[0] == *id);
        names[0].clone()
    }

    fn owners_text_of(&self, ids: &Vec<String>) -> (r: String)
        ensures
            r@ == owners_text(self.member_cache@, ids@),
    {
        if ids.len() == 0 {
            return String::from_str("Unassigned");
        }
        let names = self.get_owner_names(ids);
        assert(views(names@) =~= ids@.map_values(|id: String| member_name(self.member_cache@, id@)));
        join_strings(&names, ", ")
    }

    fn add_head(&self, t: &mut DetailText, story: &Story)
        requires
            doc_of(*old(t)) == empty_doc(),
        ensures
            doc_of(*final(t)) == head_doc(*self, story@),
    {
        push_line(t, line2(word("ID: ", Tone::Label), piece(i64_to_text(story.id), Tone::Plain)));
        push_empty(t);
        push_line(t, line2(word("Name: ", Tone::Label), piece(story.name.clone(), Tone::Plain)));
        push_empty(t);
        push_line(t, line2(word("Type: ", Tone::Label), piece(story.story_type.clone(), Tone::Plain)));
        push_empty(t);
        let state = state_label_of(&self.workflow_state_map, story.workflow_state_id);
        push_line(t, line2(word("State: ", Tone::Label), piece(state, Tone::Plain)));
        push_empty(t);
        match story.epic_id {
            Some(e) => match epic_name_of(&self.epics, e) {
                Some(n) => {
                    push_line(t, line2(word("Epic: ", Tone::Label), piece(n, Tone::EpicName)));
                    push_empty(t);
                },
                None => {},
            },
            None => {},
        }
        let owners = self.owners_text_of(&story.owner_ids);
        push_line(t, line2(word("Owners: ", Tone::Label), piece(owners, Tone::Plain)));
        push_empty(t);
        push_line(t, line1(word("Description:", Tone::Label)));
    }

    fn add_comments(&self, t: &mut DetailText, cs: &Vec<Comment>)
        ensures
            doc_of(*final(t)) == comment_lines(doc_of(*old(t)), cs@, self.member_cache@),
    {
        let ghost d0 = doc_of(*t);
        let mut i: usize = 0;
        assert(cs@.skip(0) =~= cs@);
        while i < cs.len()
            invariant
                i <= cs@.len(),
                comment_lines(doc_of(*t), cs@.skip(i as int), self.member_cache@) == comment_lines(
                    d0,
                    cs@,
                    self.member_cache@,
                ),
            decreases cs@.len() - i,
        {
            assert(cs@.skip(i as int)[0] == cs@[i as int]);
            assert(cs@.skip(i as int).drop_first() =~= cs@.skip(i + 1));
            let c = &cs[i];
            let l = line3(
                piece(self.member_name_of(&c.author_id), Tone::Author),
                word(" - ", Tone::Plain),
                piece(c.created_at.clone(), Tone::Muted),
            );
            push_line(t, l);
            let ls = text_lines_of(c.text.as_str());
            add_plain_lines(t, &ls, "  ");
            push_empty(t);
            i = i + 1;
        }
        assert(cs@.skip(i as int) =~= Seq::<Comment>::empty());
    }

    fn add_sections(&self, t: &mut DetailText, story: &Story)
        ensures
            doc_of(*final(t)) == sections_doc(doc_of(*old(t)), story@, self.member_cache@),
    {
        if story.branches.len() > 0 {
            push_empty(t);
            push_line(t, line1(word("Git Branches:", Tone::Label)));
            add_branches(t, &story.branches);
        }
        if story.pull_requests.len() > 0 {
            push_empty(t);
            push_line(t, line1(word("Pull Requests:", Tone::Label)));
            add_pull_requests(t, &story.pull_requests);
        }
        let n = story.commits.len();
        if n > 0 {
            push_empty(t);
            push_line(t, line1(word("Recent Commits:", Tone::Label)));
            let shown = if n > 5 {
                5
            } else {
                n
            };
            add_commits(t, &story.commits, shown);
            if n > 5 {
                let more = concat(concat("... and ", u64_to_text((n - 5) as u64).as_str()).as_str(), " more commits");
                push_line(t, line2(word("  ", Tone::Plain), piece(more, Tone::Muted)));
            }
        }
        if story.comments.len() > 0 {
            push_empty(t);
            push_line(t, line1(word("Comments:", Tone::Label)));
            push_empty(t);
            self.add_comments(t, &story.comments);
        }
    }

    /// The detail text of a story (see `detail_doc`).
    pub fn detail_text(&self, story: &Story) -> (r: DetailText)
        ensures
            doc_of(r) == detail_doc(*self, story@),
    {
        let mut t = DetailText { lines: Vec::new(), links: Vec::new() };
        assert(lines_view(t.lines@) =~= Seq::<Seq<(Seq<char>, Tone)>>::empty());
        assert(links_view(t.links@) =~= Seq::<(Seq<char>, u16, u16, u16)>::empty());
        self.add_head(&mut t, story);
        add_description(&mut t, story);
        self.add_sections(&mut t, story);
        t
    }
}

// ---------------------------------------------------------------------------
// Where the links lead

/// The targets of links, in order.
pub open spec fn targets(ls: Seq<(Seq<char>, u16, u16, u16)>) -> Seq<Seq<char>> {
    ls.map_values(|l: (Seq<char>, u16, u16, u16)| l.0)
}

proof fn lemma_targets_push(ls: Seq<(Seq<char>, u16, u16, u16)>, l: (Seq<char>, u16, u16, u16))
    ensures
        targets(ls.push(l)) == targets(ls).push(l.0),
{
    assert(targets(ls.push(l)) =~= targets(ls).push(l.0));
}

proof fn lemma_plain_lines_links(d: Doc, ls: Seq<Seq<char>>, indent: Seq<char>)
    ensures
        plain_lines(d, ls, indent).links == d.links,
    decreases ls.len(),
{
    if ls.len() > 0 {
        lemma_plain_lines_links(put(d, seq![plain(indent + ls[0])]), ls.drop_first(), indent);
    }
}

proof fn lemma_branch_links(d: Doc, bs: Seq<Branch>)
    ensures
        targets(branch_lines(d, bs).links) == targets(d.links) + bs.map_values(|b: Branch| b.url@),
    decreases bs.len(),
{
    let urls = bs.map_values(|b: Branch| b.url@);
    if bs.len() == 0 {
        assert(targets(d.links) + urls =~= targets(d.links));
    } else {
        let b = bs[0];
        let start = wrap16(5 + bytes(b.name@));
        let l = seq![plain("  "@), (b.name@, Tone::BranchName), plain(" - "@), (b.url@, Tone::Link)];
        let d1 = put_link(d, l, b.url@, start, wrap16(start + bytes(b.url@)));
        lemma_branch_links(d1, bs.drop_first());
        lemma_targets_push(d.links, (b.url@, wrap16(d.lines.len() as int), start, wrap16(start + bytes(b.url@))));
        assert(urls =~= seq![b.url@] + bs.drop_first().map_values(|b: Branch| b.url@));
        assert(targets(d.links).push(b.url@) + bs.drop_first().map_values(|b: Branch| b.url@) =~= targets(d.links)
            + urls);
    }
}

proof fn lemma_pr_links(d: Doc, ps: Seq<PullRequest>)
    ensures
        targets(pr_lines(d, ps).links) == targets(d.links) + ps.map_values(|p: PullRequest| p.url@),
    decreases ps.len(),
{
    let urls = ps.map_values(|p: PullRequest| p.url@);
    if ps.len() == 0 {
        assert(targets(d.links) + urls =~= targets(d.links));
    } else {
        let p = ps[0];
        let d0 = put(d, seq![plain("  "@), (p.title@, Tone::Title), plain(" ["@), pr_status(p), plain("]"@)]);
        let d1 = put_link(d0, seq![plain("    "@), (p.url@, Tone::Link)], p.url@, 4, wrap16(4 + bytes(p.url@)));
        lemma_pr_links(d1, ps.drop_first());
        lemma_targets_push(d.links, (p.url@, wrap16(d0.lines.len() as int), 4, wrap16(4 + bytes(p.url@))));
        assert(urls =~= seq![p.url@] + ps.drop_first().map_values(|p: PullRequest| p.url@));
        assert(targets(d.links).push(p.url@) + ps.drop_first().map_values(|p: PullRequest| p.url@) =~= targets(
            d.links,
        ) + urls);
    }
}

proof fn lemma_commit_links(d: Doc, cs: Seq<Commit>)
    ensures
        targets(commit_lines(d, cs).links) == targets(d.links) + cs.map_values(|c: Commit| c.url@),
    decreases cs.len(),
{
    let urls = cs.map_values(|c: Commit| c.url@);
    if cs.len() == 0 {
        assert(targets(d.links) + urls =~= targets(d.links));
    } else {
        let c = cs[0];
        let d0 = put(
            d,
            seq![plain("  "@), (short_hash(c.hash@), Tone::Hash), plain(" - "@), plain(first_line(c.message@))],
        );
        let d1 = put_link(d0, seq![plain("    "@), (c.url@, Tone::Link)], c.url@, 4, wrap16(4 + bytes(c.url@)));
        lemma_commit_links(d1, cs.drop_first());
        lemma_targets_push(d.links, (c.url@, wrap16(d0.lines.len() as int), 4, wrap16(4 + bytes(c.url@))));
        assert(urls =~= seq![c.url@] + cs.drop_first().map_values(|c: Commit| c.url@));
        assert(targets(d.links).push(c.url@) + cs.drop_first().map_values(|c: Commit| c.url@) =~= targets(d.links)
            + urls);
    }
}

proof fn lemma_comment_links(d: Doc, cs: Seq<Comment>, cache: Seq<(String, String)>)
    ensures
        comment_lines(d, cs, cache).links == d.links,
    decreases cs.len(),
{
    if cs.len() > 0 {
        let c = cs[0];
        let d1 = put(d, seq![(member_name(cache, c.author_id@), Tone::Author), plain(" - "@), (c.created_at@, Tone::Muted)]);
        lemma_plain_lines_links(d1, text_lines(c.text@), "  "@);
        let d2 = plain_lines(d1, text_lines(c.text@), "  "@);
        lemma_comment_links(put(d2, seq![]), cs.drop_first(), cache);
    }
}

/// The detail view links to the story, then to each of its branches, each
/// of its pull requests and each of its first five commits, in that order,
/// and to nothing else.
pub proof fn lemma_detail_links(app: App, s: StoryView)
    ensures
        targets(detail_doc(app, s).links) == seq![s.app_url@] + s.branches.map_values(|b: Branch| b.url@)
            + s.pull_requests.map_values(|p: PullRequest| p.url@) + s.commits.take(
            if s.commits.len() > 5 {
                5
            } else {
                s.commits.len() as int
            },
        ).map_values(|c: Commit| c.url@),
{
    let h = head_doc(app, s);
    assert(h.links == Seq::<(Seq<char>, u16, u16, u16)>::empty());
    let d = if s.description@.len() == 0 {
        put(h, seq![plain("No description available"@)])
    } else {
        plain_lines(h, text_lines(s.description@), seq![])
    };
    lemma_plain_lines_links(h, text_lines(s.description@), seq![]);
    let d = put(d, seq![]);
    let b = body_doc(h, s);
    lemma_targets_push(d.links, (s.app_url@, wrap16(d.lines.len() as int), 5, wrap16(5 + bytes(s.app_url@))));
    assert(targets(b.links) =~= seq![s.app_url@]);
    let bu = s.branches.map_values(|x: Branch| x.url@);
    let pu = s.pull_requests.map_values(|p: PullRequest| p.url@);
    let n = s.commits.len();
    let shown = s.commits.take(if n > 5 {
        5
    } else {
        n as int
    });
    let cu = shown.map_values(|c: Commit| c.url@);
    let d1 = if s.branches.len() > 0 {
        branch_lines(put(put(b, seq![]), seq![label("Git Branches:"@)]), s.branches)
    } else {
        b
    };
    lemma_branch_links(put(put(b, seq![]), seq![label("Git Branches:"@)]), s.branches);
    if s.branches.len() == 0 {
        assert(bu =~= Seq::<Seq<char>>::empty());
    }
    assert(targets(d1.links) =~= seq![s.app_url@] + bu);
    let d2 = if s.pull_requests.len() > 0 {
        pr_lines(put(put(d1, seq![]), seq![label("Pull Requests:"@)]), s.pull_requests)
    } else {
        d1
    };
    lemma_pr_links(put(put(d1, seq![]), seq![label("Pull Requests:"@)]), s.pull_requests);
    if s.pull_requests.len() == 0 {
        assert(pu =~= Seq::<Seq<char>>::empty());
    }
    assert(targets(d2.links) =~= seq![s.app_url@] + bu + pu);
    let d3 = if n > 0 {
        let dc = commit_lines(put(put(d2, seq![]), seq![label("Recent Commits:"@)]), shown);
        if n > 5 {
            put(dc, seq![plain("  "@), ("... and "@ + decimal((n - 5) as nat) + " more commits"@, Tone::Muted)])
        } else {
            dc
        }
    } else {
        d2
    };
    lemma_commit_links(put(put(d2, seq![]), seq![label("Recent Commits:"@)]), shown);
    if n == 0 {
        assert(cu =~= Seq::<Seq<char>>::empty());
    }
    assert(targets(d3.links) =~= seq![s.app_url@] + bu + pu + cu);
    let d4 = put(put(put(d3, seq![]), seq![label("Comments:"@)]), seq![]);
    lemma_comment_links(d4, s.comments, app.member_cache@);
    assert(sections_doc(b, s, app.member_cache@) == (if s.comments.len() > 0 {
        comment_lines(d4, s.comments, app.member_cache@)
    } else {
        d3
    }));
}

} // verus!

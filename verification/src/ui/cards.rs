//! The texts that show a story on the board (in a column, its name wrapped
//! at words; in the list, its name after its state) and the values of the
//! story forms' choice fields.
use crate::api::{Epic, Story};
use crate::text::{chars_of, concat, i64_to_text, int_to_text, is_blank, is_space, is_space_char, string_of, trim, views};
use crate::ui::app::App;
use crate::ui::detail::{byte_len, bytes, epic_name, epic_name_of, state_label, state_label_of};
use vstd::prelude::*;

verus! {

/// The mark of a story type on the board.
pub open spec fn type_mark(t: Seq<char>) -> Seq<char> {
    if t == "feature"@ {
        "✨"@
    } else if t == "bug"@ {
        "🐞"@
    } else if t == "chore"@ {
        "🔧"@
    } else {
        "📝"@
    }
}

/// The mark of a story type on the board (see `type_mark`).
pub fn story_type_mark(t: &str) -> (r: &'static str)
    ensures
        r@ == type_mark(t@),
{
    let s = String::from_str(t);
    if s == String::from_str("feature") {
        "✨"
    } else if s == String::from_str("bug") {
        "🐞"
    } else if s == String::from_str("chore") {
        "🔧"
    } else {
        "📝"
    }
}

/// `a - b`, or 0 when `b` is larger (`usize::saturating_sub`).
pub open spec fn sat_sub(a: int, b: int) -> int {
    if a > b {
        a - b
    } else {
        0
    }
}

/// The first `n` characters of a text (all of it when it is shorter).
pub open spec fn take_chars(s: Seq<char>, n: int) -> Seq<char> {
    if s.len() > n {
        s.take(n)
    } else {
        s
    }
}

/// A text cut to fit `width` bytes: its first `width - 3` characters and
/// "...".
pub open spec fn cut(s: Seq<char>, width: int) -> Seq<char> {
    take_chars(s, sat_sub(width, 3)) + "..."@
}

/// The words of a text as `str::split_whitespace` gives them; `cur` is the
/// part of the current word read so far.
pub open spec fn words_from(rest: Seq<char>, cur: Seq<char>) -> Seq<Seq<char>>
    decreases rest.len(),
{
    if rest.len() == 0 {
        if cur.len() == 0 {
            seq![]
        } else {
            seq![cur]
        }
    } else if is_space(rest[0]) {
        (if cur.len() == 0 {
            seq![]
        } else {
            seq![cur]
        }) + words_from(rest.drop_first(), seq![])
    } else {
        words_from(rest.drop_first(), cur.push(rest[0]))
    }
}

/// The words of a text (see `words_from`).
pub open spec fn words(s: Seq<char>) -> Seq<Seq<char>> {
    words_from(s, seq![])
}

/// Splits a text into its words (see `words`).
pub fn words_of(s: &str) -> (r: Vec<String>)
    ensures
        views(r@) == words(s@),
{
    let cs = chars_of(s);
    let mut out: Vec<String> = Vec::new();
    let mut cur: Vec<char> = Vec::new();
    let mut i: usize = 0;
    assert(cs@.skip(0) =~= cs@);
    while i < cs.len()
        invariant
            i <= cs@.len(),
            cs@ == s@,
            views(out@) + words_from(cs@.skip(i as int), cur@) == words_from(s@, seq![]),
        decreases cs@.len() - i,
    {
        let ghost rest = cs@.skip(i as int);
        assert(rest.drop_first() =~= cs@.skip(i + 1));
        assert(rest[0] == cs@[i as int]);
        let c = cs[i];
        if is_space_char(c) {
            let ghost before = views(out@);
            let ghost ended: Seq<Seq<char>> = if cur@.len() == 0 {
                seq![]
            } else {
                seq![cur@]
            };
            if cur.len() > 0 {
                out.push(string_of(cur.as_slice()));
                assert(views(out@) =~= before + ended);
            } else {
                assert(views(out@) =~= before + ended);
            }
            assert(views(out@) + words_from(cs@.skip(i + 1), seq![]) =~= before + (ended + words_from(
                rest.drop_first(),
                seq![],
            )));
            cur = Vec::new();
            assert(cur@ =~= Seq::<char>::empty());
        } else {
            cur.push(c);
        }
        i = i + 1;
    }
    assert(cs@.skip(i as int) =~= Seq::<char>::empty());
    if cur.len() > 0 {
        let ghost before = views(out@);
        out.push(string_of(cur.as_slice()));
        assert(views(out@) =~= before + seq![cur@]);
    } else {
        assert(views(out@) =~= views(out@) + Seq::<Seq<char>>::empty());
    }
    out
}

/// Where the wrapping of a name stands: the two lines so far, the length
/// counted on the current line, and whether that is the second.
pub struct Wrap {
    pub line1: Seq<char>,
    pub line2: Seq<char>,
    pub len: int,
    pub second: bool,
}

/// Wraps the words from the `i`-th on: each word (with a space before it
/// but the first) joins the first line while it fits in `w1` bytes; the
/// first that does not starts the second line, or, longer than `w2`, is
/// cut and ends it; on the second line words join while they fit in `w2`,
/// and the first that does not ends it with "..." (cutting the line when
/// that does not fit either).
pub open spec fn wrap_from(ws: Seq<Seq<char>>, i: int, st: Wrap, w1: int, w2: int) -> (Seq<char>, Seq<char>)
    decreases ws.len() - i,
{
    if i < 0 || i >= ws.len() {
        (st.line1, st.line2)
    } else {
        let word = ws[i];
        let wl = bytes(word) + if i > 0 {
            1int
        } else {
            0
        };
        if !st.second && st.len + wl <= w1 {
            wrap_from(
                ws,
                i + 1,
                Wrap {
                    line1: (if i > 0 {
                        st.line1 + " "@
                    } else {
                        st.line1
                    }) + word,
                    len: st.len + wl,
                    ..st
                },
                w1,
                w2,
            )
        } else if !st.second {
            if wl <= w2 {
                wrap_from(ws, i + 1, Wrap { line2: st.line2 + word, len: wl, second: true, ..st }, w1, w2)
            } else {
                (st.line1, cut(word, w2))
            }
        } else if st.len + wl < w2 {
            wrap_from(ws, i + 1, Wrap { line2: st.line2 + " "@ + word, len: st.len + wl + 1, ..st }, w1, w2)
        } else if bytes(st.line2) + 3 <= w2 {
            (st.line1, st.line2 + "..."@)
        } else {
            (st.line1, cut(st.line2, w2))
        }
    }
}

/// The second line as shown: empty when it holds only white space.
pub open spec fn shown_second(l: Seq<char>) -> Seq<char> {
    if trim(l).len() == 0 {
        seq![]
    } else {
        l
    }
}

/// The two lines of a story in a column `width` bytes wide: "[#id] mark "
/// and the name when it fits; else the name wrapped at words (see
/// `wrap_from`), or, when its first word does not fit, all of it on the
/// second line (cut when it does not fit there either).
pub open spec fn column_card_text(id: i64, story_type: Seq<char>, name: Seq<char>, width: int) -> (
    Seq<char>,
    Seq<char>,
) {
    let prefix = "[#"@ + int_to_text(id as int) + "] "@ + type_mark(story_type) + " "@;
    let w1 = sat_sub(width, bytes(prefix) as int);
    let ws = words(name);
    let (l1, l2) = if bytes(name) <= w1 {
        (prefix + name, seq![])
    } else if ws.len() == 0 {
        (prefix, seq![])
    } else if bytes(ws[0]) > w1 {
        (prefix, if bytes(name) > width {
            cut(name, width)
        } else {
            name
        })
    } else {
        wrap_from(ws, 0, Wrap { line1: prefix, line2: seq![], len: 0, second: false }, w1, width)
    };
    (l1, shown_second(l2))
}

/// The two lines of a story in the list, `width` bytes wide: "[#id] mark
/// [state] " and the name when it fits; else the name on the second line
/// (cut when it does not fit there either).
pub open spec fn list_card_text(id: i64, story_type: Seq<char>, state: Seq<char>, name: Seq<char>, width: int) -> (
    Seq<char>,
    Seq<char>,
) {
    let prefix = "[#"@ + int_to_text(id as int) + "] "@ + type_mark(story_type) + " ["@ + state + "] "@;
    let w1 = sat_sub(width, bytes(prefix) as int);
    if bytes(name) <= w1 {
        (prefix + name, seq![])
    } else {
        (prefix, shown_second(
            if bytes(name) > width {
                cut(name, width)
            } else {
                name
            },
        ))
    }
}

fn cut_to(s: &String, width: usize) -> (r: String)
    ensures
        r@ == cut(s@, width as int),
{
    let n: usize = if width > 3 {
        width - 3
    } else {
        0
    };
    let cs = chars_of(s.as_str());
    let mut out: Vec<char> = Vec::new();
    let mut i: usize = 0;
    while i < n && i < cs.len()
        invariant
            i <= cs@.len(),
            i <= n,
            out@ == cs@.take(i as int),
        decreases n - i,
    {
        out.push(cs[i]);
        assert(cs@.take(i + 1) =~= cs@.take(i as int).push(cs@[i as int]));
        i = i + 1;
    }
    assert(out@ =~= take_chars(s@, n as int));
    let kept = string_of(out.as_slice());
    concat(kept.as_str(), "...")
}

fn second_shown(l: String) -> (r: String)
    ensures
        r@ == shown_second(l@),
{
    if is_blank(l.as_str()) {
        String::new()
    } else {
        l
    }
}

/// Wraps the words after a prefix (see `wrap_from`).
fn wrap_words(ws: &Vec<String>, prefix: String, w1: usize, w2: usize) -> (r: (String, String))
    ensures
        (r.0@, r.1@) == wrap_from(
            views(ws@),
            0,
            Wrap { line1: prefix@, line2: seq![], len: 0, second: false },
            w1 as int,
            w2 as int,
        ),
{
    let ghost all = views(ws@);
    let ghost start = Wrap { line1: prefix@, line2: seq![], len: 0, second: false };
    let ghost goal = wrap_from(all, 0, start, w1 as int, w2 as int);
    let mut line1 = prefix;
    let mut line2 = String::new();
    let mut cur: u128 = 0;
    let mut second = false;
    let mut i: usize = 0;
    while i < ws.len()
        invariant
            i <= ws@.len(),
            all == views(ws@),
            goal == wrap_from(all, 0, start, w1 as int, w2 as int),
            start == (Wrap { line1: prefix@, line2: seq![], len: 0, second: false }),
            cur as int <= (if w1 > w2 {
                w1 as int
            } else {
                w2 as int
            }) + 1,
            wrap_from(all, i as int, Wrap { line1: line1@, line2: line2@, len: cur as int, second }, w1 as int, w2 as int)
                == goal,
        decreases ws@.len() - i,
    {
        let word = &ws[i];
        assert(all[i as int] == word@);
        let wl: u128 = byte_len(word) as u128 + if i > 0 {
            1u128
        } else {
            0u128
        };
        if !second && cur + wl <= w1 as u128 {
            if i > 0 {
                line1 = concat(line1.as_str(), " ");
            }
            line1 = concat(line1.as_str(), word.as_str());
            cur = cur + wl;
        } else if !second {
            if wl <= w2 as u128 {
                second = true;
                line2 = concat(line2.as_str(), word.as_str());
                cur = wl;
            } else {
                return (line1, cut_to(word, w2));
            }
        } else if cur + wl < w2 as u128 {
            line2 = concat(concat(line2.as_str(), " ").as_str(), word.as_str());
            cur = cur + wl + 1;
        } else if byte_len(&line2) as u128 + 3 <= w2 as u128 {
            return (line1, concat(line2.as_str(), "..."));
        } else {
            return (line1, cut_to(&line2, w2));
        }
        i = i + 1;
    }
    (line1, line2)
}

fn card_prefix(id: i64, story_type: &str) -> (r: String)
    ensures
        r@ == "[#"@ + int_to_text(id as int) + "] "@ + type_mark(story_type@),
{
    let a = concat("[#", i64_to_text(id).as_str());
    let b = concat(a.as_str(), "] ");
    concat(b.as_str(), story_type_mark(story_type))
}

/// The two lines of a story in a column (see `column_card_text`).
pub fn column_card(story: &Story, width: usize) -> (r: (String, String))
    ensures
        (r.0@, r.1@) == column_card_text(story.id, story.story_type@, story.name@, width as int),
{
    let prefix = concat(card_prefix(story.id, story.story_type.as_str()).as_str(), " ");
    let plen = byte_len(&prefix);
    let w1: usize = if width > plen {
        width - plen
    } else {
        0
    };
    let name = &story.name;
    if byte_len(name) <= w1 {
        return (concat(prefix.as_str(), name.as_str()), String::new());
    }
    let ws = words_of(name.as_str());
    if ws.len() == 0 {
        return (prefix, String::new());
    }
    assert(views(ws@)[0] == ws@[0]@);
    if byte_len(&ws[0]) > w1 {
        let second = if byte_len(name) > width {
            cut_to(name, width)
        } else {
            name.clone()
        };
        return (prefix, second_shown(second));
    }
    let (l1, l2) = wrap_words(&ws, prefix, w1, width);
    (l1, second_shown(l2))
}

impl App {
    /// The two lines of a story in the list (see `list_card_text`), with
    /// the name the state table gives its state.
    pub fn list_card(&self, story: &Story, width: usize) -> (r: (String, String))
        ensures
            (r.0@, r.1@) == list_card_text(
                story.id,
                story.story_type@,
                state_label(self.workflow_state_map@, story.workflow_state_id),
                story.name@,
                width as int,
            ),
    {
        let state = state_label_of(&self.workflow_state_map, story.workflow_state_id);
        let a = concat(card_prefix(story.id, story.story_type.as_str()).as_str(), " [");
        let prefix = concat(concat(a.as_str(), state.as_str()).as_str(), "] ");
        let plen = byte_len(&prefix);
        let w1: usize = if width > plen {
            width - plen
        } else {
            0
        };
        let name = &story.name;
        if byte_len(name) <= w1 {
            (concat(prefix.as_str(), name.as_str()), String::new())
        } else {
            let second = if byte_len(name) > width {
                cut_to(name, width)
            } else {
                name.clone()
            };
            (prefix, second_shown(second))
        }
    }
}

/// Whether the current user owns a story.
pub open spec fn owned_by(user: Option<String>, owners: Seq<String>) -> bool {
    match user {
        Some(u) => views(owners).contains(u@),
        None => false,
    }
}

/// Whether the current user owns a story (see `owned_by`).
pub fn is_owned(user: &Option<String>, owners: &Vec<String>) -> (r: bool)
    ensures
        r == owned_by(*user, owners@),
{
    match user {
        None => false,
        Some(u) => {
            let mut i: usize = 0;
            while i < owners.len()
                invariant
                    i <= owners@.len(),
                    owned_by(*user, owners@) == views(owners@).contains(u@),
                    forall|k: int| 0 <= k < i ==> views(owners@)[k] != u@,
                decreases owners@.len() - i,
            {
                if owners[i] == *u {
                    assert(views(owners@)[i as int] == u@);
                    return true;
                }
                i = i + 1;
            }
            false
        },
    }
}

/// A choice field's value as shown: between "< " and " >" while the field
/// is selected.
pub open spec fn field_text(value: Seq<char>, selected: bool) -> Seq<char> {
    if selected {
        "< "@ + value + " >"@
    } else {
        value
    }
}

/// Shows a choice field's value (see `field_text`).
pub fn field_label(value: &str, selected: bool) -> (r: String)
    ensures
        r@ == field_text(value@, selected),
{
    if selected {
        concat(concat("< ", value).as_str(), " >")
    } else {
        String::from_str(value)
    }
}

/// The epic field of a story form: the epic's name, "Unknown Epic" for an
/// epic that is not listed, or "None".
pub open spec fn epic_field_text(epics: Seq<Epic>, epic_id: Option<i64>, selected: bool) -> Seq<char> {
    match epic_id {
        Some(e) => match epic_name(epics, e) {
            Some(n) => field_text(n, selected),
            None => "Unknown Epic"@,
        },
        None => field_text("None"@, selected),
    }
}

/// Shows the epic field of a story form (see `epic_field_text`).
pub fn epic_field_label(epics: &Vec<Epic>, epic_id: Option<i64>, selected: bool) -> (r: String)
    ensures
        r@ == epic_field_text(epics@, epic_id, selected),
{
    match epic_id {
        Some(e) => match epic_name_of(epics, e) {
            Some(n) => field_label(n.as_str(), selected),
            None => String::from_str("Unknown Epic"),
        },
        None => field_label("None", selected),
    }
}

} // verus!

//! The branch name suggested for a story.
use crate::api::{Story, StoryView};
use crate::text::{chars_of, concat, i64_to_text, int_to_text, join, string_of};
use vstd::prelude::*;

verus! {

/// A text in lower case as `str::to_lowercase` makes it (Unicode's
/// lowercase mapping, which may change a text's length).
pub uninterp spec fn lowercase(s: Seq<char>) -> Seq<char>;

/// Whether a character is alphabetic or numeric in Unicode's sense
/// (`char::is_alphanumeric`).
pub uninterp spec fn alphanumeric(c: char) -> bool;

/// Lower-cases a text (std's `str::to_lowercase`); the result is named,
/// not described.
#[verifier::external_body]
pub(crate) fn to_lowercase(s: &str) -> (r: String)
    ensures
        r@ == lowercase(s@),
{
    s.to_lowercase()
}

/// Whether a character is alphanumeric (std's `char::is_alphanumeric`);
/// the result is named, not described.
#[verifier::external_body]
fn is_alphanumeric(c: char) -> (r: bool)
    ensures
        r == alphanumeric(c),
{
    c.is_alphanumeric()
}

/// The pieces of a text between the characters that `word` does not mark
/// as word characters (one more piece than such characters; pieces may be
/// empty). `word[i]` tells whether the `i`-th character is one.
pub open spec fn pieces(s: Seq<char>, word: Seq<bool>) -> Seq<Seq<char>>
    decreases s.len(),
{
    if s.len() == 0 || word.len() == 0 {
        seq![Seq::<char>::empty()]
    } else if !word.last() {
        pieces(s.drop_last(), word.drop_last()).push(Seq::<char>::empty())
    } else {
        let p = pieces(s.drop_last(), word.drop_last());
        p.update(p.len() - 1, p.last().push(s.last()))
    }
}

/// Which characters of a text are alphanumeric.
pub open spec fn word_marks(s: Seq<char>) -> Seq<bool> {
    s.map_values(|c: char| alphanumeric(c))
}

/// The pieces that are not empty, in order.
pub open spec fn non_empty(p: Seq<Seq<char>>) -> Seq<Seq<char>>
    decreases p.len(),
{
    if p.len() == 0 {
        p
    } else if p.last().len() == 0 {
        non_empty(p.drop_last())
    } else {
        non_empty(p.drop_last()).push(p.last())
    }
}

/// The first `n` elements, or all when there are fewer.
pub open spec fn at_most<T>(s: Seq<T>, n: int) -> Seq<T> {
    if s.len() <= n {
        s
    } else {
        s.take(n)
    }
}

/// The slug of a lower-cased text: cut into words at every character that
/// `word` does not mark, the first five words joined with `-`.
pub open spec fn slug_of(lower: Seq<char>, word: Seq<bool>) -> Seq<char> {
    join(at_most(non_empty(pieces(lower, word)), 5), "-"@)
}

/// A story name as a branch-name slug: lower-cased, cut into words at
/// every character that is not alphanumeric, the first five words joined
/// with `-`.
pub open spec fn slug(name: Seq<char>) -> Seq<char> {
    slug_of(lowercase(name), word_marks(lowercase(name)))
}

/// The branch suggested for a story: the one the service formats for it,
/// else `sc-<id>-<slug of the name>`.
pub open spec fn suggested_branch(s: StoryView) -> Seq<char> {
    match s.formatted_vcs_branch_name {
        Some(b) => b@,
        None => "sc-"@ + int_to_text(s.id as int) + "-"@ + slug(s.name@),
    }
}

/// The branch the board's `g` key suggests: the one the service formats
/// for the story, else `sc-<id>-` and the name with spaces and slashes
/// made `-`, lower-cased.
pub open spec fn quick_branch(s: StoryView) -> Seq<char> {
    match s.formatted_vcs_branch_name {
        Some(b) => b@,
        None => "sc-"@ + int_to_text(s.id as int) + "-"@ + lowercase(
            s.name@.map_values(|c: char| if c == ' ' || c == '/' { '-' } else { c }),
        ),
    }
}

fn split_pieces(s: &Vec<char>, word: &Vec<bool>) -> (r: Vec<Vec<char>>)
    requires
        word@.len() == s@.len(),
    ensures
        r@.map_values(|w: Vec<char>| w@) == pieces(s@, word@),
{
    let mut r: Vec<Vec<char>> = Vec::new();
    r.push(Vec::new());
    let mut i: usize = 0;
    assert(r@.map_values(|w: Vec<char>| w@) =~= pieces(s@.take(0), word@.take(0)));
    while i < s.len()
        invariant
            i <= s@.len(),
            word@.len() == s@.len(),
            r@.len() >= 1,
            r@.map_values(|w: Vec<char>| w@) == pieces(s@.take(i as int), word@.take(i as int)),
        decreases s@.len() - i,
    {
        let c = s[i];
        let ghost before = r@.map_values(|w: Vec<char>| w@);
        assert(s@.take(i + 1).drop_last() =~= s@.take(i as int));
        assert(word@.take(i + 1).drop_last() =~= word@.take(i as int));
        assert(s@.take(i + 1).last() == c);
        assert(word@.take(i + 1).last() == word@[i as int]);
        if !word[i] {
            r.push(Vec::new());
            assert(r@.map_values(|w: Vec<char>| w@) =~= before.push(Seq::<char>::empty()));
        } else {
            let n = r.len();
            let mut last = r.pop().unwrap();
            last.push(c);
            r.push(last);
            assert(r@.map_values(|w: Vec<char>| w@) =~= before.update(n - 1, before.last().push(c)));
        }
        i = i + 1;
    }
    assert(s@.take(s@.len() as int) =~= s@);
    assert(word@.take(word@.len() as int) =~= word@);
    r
}

/// Joins the first five non-empty pieces with `-`.
fn join_words(p: &Vec<Vec<char>>) -> (r: Vec<char>)
    ensures
        r@ == join(at_most(non_empty(p@.map_values(|w: Vec<char>| w@)), 5), "-"@),
{
    let ghost v = p@.map_values(|w: Vec<char>| w@);
    let mut words: Vec<Vec<char>> = Vec::new();
    let mut i: usize = 0;
    while i < p.len()
        invariant
            i <= p@.len(),
            v == p@.map_values(|w: Vec<char>| w@),
            words@.map_values(|w: Vec<char>| w@) == non_empty(v.take(i as int)),
        decreases p@.len() - i,
    {
        assert(v.take(i + 1).drop_last() =~= v.take(i as int));
        assert(v.take(i + 1).last() == p@[i as int]@);
        if p[i].len() > 0 {
            let ghost before = words@.map_values(|w: Vec<char>| w@);
            words.push(p[i].clone());
            assert(words@.map_values(|w: Vec<char>| w@) =~= before.push(p@[i as int]@));
        }
        i = i + 1;
    }
    assert(v.take(v.len() as int) =~= v);
    let ghost ws = words@.map_values(|w: Vec<char>| w@);
    let n: usize = if words.len() <= 5 {
        words.len()
    } else {
        5
    };
    assert(at_most(ws, 5) =~= ws.take(n as int));
    let mut r: Vec<char> = Vec::new();
    let mut k: usize = 0;
    while k < n
        invariant
            k <= n,
            n <= words@.len(),
            ws == words@.map_values(|w: Vec<char>| w@),
            r@ == join(ws.take(k as int), "-"@),
        decreases n - k,
    {
        proof {
            reveal_strlit("-");
        }
        assert(ws.take(k + 1).drop_last() =~= ws.take(k as int));
        assert(ws.take(k + 1).last() == words@[k as int]@);
        if k > 0 {
            r.push('-');
            assert(r@ =~= join(ws.take(k as int), "-"@) + "-"@);
        }
        let w = &words[k];
        let mut j: usize = 0;
        let ghost start = r@;
        while j < w.len()
            invariant
                j <= w@.len(),
                r@ == start + w@.take(j as int),
            decreases w@.len() - j,
        {
            r.push(w[j]);
            assert(w@.take(j + 1) =~= w@.take(j as int).push(w@[j as int]));
            j = j + 1;
        }
        assert(w@.take(w@.len() as int) =~= w@);
        proof {
            if k == 0 {
                assert(ws.take(1) =~= seq![ws[0]]);
                assert(start =~= Seq::<char>::empty());
                assert(r@ =~= ws[0]);
            }
        }
        k = k + 1;
    }
    r
}

/// The slug of a lower-cased text, given which of its characters are word
/// characters (see `slug_of`).
pub fn slug_from(lower: &str, word: &Vec<bool>) -> (r: String)
    requires
        word@.len() == lower@.len(),
    ensures
        r@ == slug_of(lower@, word@),
{
    let cs = chars_of(lower);
    let p = split_pieces(&cs, word);
    let w = join_words(&p);
    string_of(w.as_slice())
}

/// Marks which characters of a text are alphanumeric.
fn mark_words(s: &str) -> (r: Vec<bool>)
    ensures
        r@ == word_marks(s@),
{
    let cs = chars_of(s);
    let mut r: Vec<bool> = Vec::new();
    let mut i: usize = 0;
    while i < cs.len()
        invariant
            i <= cs@.len(),
            cs@ == s@,
            r@ == word_marks(cs@.take(i as int)),
        decreases cs@.len() - i,
    {
        r.push(is_alphanumeric(cs[i]));
        assert(word_marks(cs@.take(i + 1)) =~= word_marks(cs@.take(i as int)).push(alphanumeric(cs@[i as int])));
        i = i + 1;
    }
    assert(cs@.take(cs@.len() as int) =~= cs@);
    r
}

/// The slug of a story name (see `slug`).
pub fn name_slug(name: &str) -> (r: String)
    ensures
        r@ == slug(name@),
{
    let lower = to_lowercase(name);
    let word = mark_words(lower.as_str());
    slug_from(lower.as_str(), &word)
}

/// `sc-<id>-` followed by a text.
pub fn story_prefixed(id: i64, rest: &str) -> (r: String)
    ensures
        r@ == "sc-"@ + int_to_text(id as int) + "-"@ + rest@,
{
    let a = concat("sc-", i64_to_text(id).as_str());
    let b = concat(a.as_str(), "-");
    concat(b.as_str(), rest)
}

/// The branch suggested for a story (see `suggested_branch`).
pub fn suggested_branch_name(story: &Story) -> (r: String)
    ensures
        r@ == suggested_branch(story@),
{
    match &story.formatted_vcs_branch_name {
        Some(b) => b.clone(),
        None => {
            let s = name_slug(story.name.as_str());
            story_prefixed(story.id, s.as_str())
        },
    }
}

/// The branch suggested by the board's `g` key (see `quick_branch`).
pub fn quick_branch_name(story: &Story) -> (r: String)
    ensures
        r@ == quick_branch(story@),
{
    match &story.formatted_vcs_branch_name {
        Some(b) => b.clone(),
        None => {
            let cs = chars_of(story.name.as_str());
            let mut out: Vec<char> = Vec::new();
            let mut i: usize = 0;
            while i < cs.len()
                invariant
                    i <= cs@.len(),
                    cs@ == story.name@,
                    out@ == cs@.take(i as int).map_values(
                        |c: char| if c == ' ' || c == '/' { '-' } else { c },
                    ),
                decreases cs@.len() - i,
            {
                let c = cs[i];
                out.push(if c == ' ' || c == '/' { '-' } else { c });
                assert(cs@.take(i + 1).map_values(|c: char| if c == ' ' || c == '/' { '-' } else { c })
                    =~= cs@.take(i as int).map_values(|c: char| if c == ' ' || c == '/' { '-' } else { c }).push(
                    if c == ' ' || c == '/' { '-' } else { c },
                ));
                i = i + 1;
            }
            assert(cs@.take(cs@.len() as int) =~= cs@);
            let replaced = string_of(out.as_slice());
            let lower = to_lowercase(replaced.as_str());
            story_prefixed(story.id, lower.as_str())
        },
    }
}

/// Digits are word characters of a slug, as letters are: given std's
/// classification of ASCII digits and lower-case letters as alphanumeric,
/// each of them in a (lower-cased) text is kept as part of a word, and a
/// character separates words only when std says it is not alphanumeric.
pub proof fn lemma_digits_are_word_characters(s: Seq<char>)
    requires
        forall|c: char| ('0' <= c && c <= '9') || ('a' <= c && c <= 'z') ==> #[trigger] alphanumeric(c),
    ensures
        word_marks(s).len() == s.len(),
        forall|i: int|
            0 <= i < s.len() && (('0' <= s[i] && s[i] <= '9') || ('a' <= s[i] && s[i] <= 'z'))
                ==> word_marks(s)[i],
        forall|i: int| 0 <= i < s.len() && !alphanumeric(s[i]) ==> !word_marks(s)[i],
{
    assert forall|i: int|
        0 <= i < s.len() && (('0' <= s[i] && s[i] <= '9') || ('a' <= s[i] && s[i] <= 'z')) implies word_marks(
        s,
    )[i] by {
        assert(alphanumeric(s[i]));
    }
}

} // verus!

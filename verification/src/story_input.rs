//! Reading a multi-line description typed at a prompt: lines are taken until
//! two empty lines in a row, and trailing empty lines are dropped.
use vstd::prelude::*;
use crate::text::{chars_of, string_of, join, views, join_strings};

verus! {

/// The text with every trailing `c` removed.
pub open spec fn strip_end(s: Seq<char>, c: char) -> Seq<char>
    decreases s.len(),
{
    if s.len() > 0 && s.last() == c {
        strip_end(s.drop_last(), c)
    } else {
        s
    }
}

/// A typed line without its line ending: trailing `\n` characters, then
/// trailing `\r` characters, removed.
pub open spec fn line_content(raw: Seq<char>) -> Seq<char> {
    strip_end(strip_end(raw, '\n'), '\r')
}

fn strip_end_vec(s: Vec<char>, c: char) -> (r: Vec<char>)
    ensures
        r@ == strip_end(s@, c),
    decreases s@.len(),
{
    if s.len() > 0 && s[s.len() - 1] == c {
        let mut t = s;
        t.pop();
        assert(t@ =~= s@.drop_last());
        strip_end_vec(t, c)
    } else {
        s
    }
}

/// The text of a typed line without its line ending.
pub fn line_content_of(raw: &str) -> (r: String)
    ensures
        r@ == line_content(raw@),
{
    let cs = chars_of(raw);
    let a = strip_end_vec(cs, '\n');
    let b = strip_end_vec(a, '\r');
    string_of(b.as_slice())
}

/// The lines without the empty ones at the end.
pub open spec fn drop_trailing_empty(lines: Seq<Seq<char>>) -> Seq<Seq<char>>
    decreases lines.len(),
{
    if lines.len() > 0 && lines.last().len() == 0 {
        drop_trailing_empty(lines.drop_last())
    } else {
        lines
    }
}

/// The description typed so far: the kept lines and how many empty lines
/// were just typed in a row.
pub struct DescriptionInput {
    pub lines: Vec<String>,
    pub empty_count: usize,
}

impl DescriptionInput {
    /// Nothing typed yet.
    pub fn new() -> (r: DescriptionInput)
        ensures
            r.lines@.len() == 0,
            r.empty_count == 0,
    {
        DescriptionInput { lines: Vec::new(), empty_count: 0 }
    }

    /// Takes one typed line (with its line ending) and says whether the
    /// description is complete. An empty line that follows another empty
    /// line completes it and is not kept; any other line is kept.
    pub fn feed(&mut self, raw: &str) -> (done: bool)
        requires
            old(self).empty_count < 2,
        ensures
            line_content(raw@).len() == 0 ==> {
                &&& final(self).empty_count == old(self).empty_count + 1
                &&& done == (old(self).empty_count + 1 >= 2)
                &&& done ==> final(self).lines@ == old(self).lines@
                &&& !done ==> views(final(self).lines@) == views(old(self).lines@).push(Seq::empty())
            },
            line_content(raw@).len() > 0 ==> {
                &&& final(self).empty_count == 0
                &&& !done
                &&& views(final(self).lines@) == views(old(self).lines@).push(line_content(raw@))
            },
            !done ==> final(self).empty_count < 2,
    {
        let line = line_content_of(raw);
        if line.as_str().unicode_len() == 0 {
            self.empty_count = self.empty_count + 1;
            if self.empty_count >= 2 {
                return true;
            }
            let ghost before = self.lines@;
            self.lines.push(String::new());
            assert(views(self.lines@) =~= views(before).push(Seq::empty()));
            false
        } else {
            self.empty_count = 0;
            let ghost before = self.lines@;
            self.lines.push(line);
            assert(views(self.lines@) =~= views(before).push(line_content(raw@)));
            false
        }
    }

    /// The description: the kept lines, trailing empty ones dropped, joined
    /// with newlines.
    pub fn finish(&self) -> (r: String)
        ensures
            r@ == join(drop_trailing_empty(views(self.lines@)), "\n"@),
    {
        let mut n: usize = self.lines.len();
        assert(self.lines@.take(n as int) =~= self.lines@);
        while n > 0 && self.lines[n - 1].as_str().unicode_len() == 0
            invariant
                n <= self.lines@.len(),
                drop_trailing_empty(views(self.lines@)) == drop_trailing_empty(views(self.lines@.take(n as int))),
            decreases n,
        {
            assert(views(self.lines@.take(n as int)).drop_last() =~= views(self.lines@.take(n - 1)));
            assert(views(self.lines@.take(n as int)).last() == self.lines@[n - 1]@);
            n = n - 1;
        }
        let mut kept: Vec<String> = Vec::new();
        let mut i: usize = 0;
        while i < n
            invariant
                i <= n <= self.lines@.len(),
                kept@ == self.lines@.take(i as int),
            decreases n - i,
        {
            kept.push(self.lines[i].clone());
            assert(self.lines@.take(i + 1) =~= self.lines@.take(i as int).push(self.lines@[i as int]));
            i = i + 1;
        }
        assert(drop_trailing_empty(views(self.lines@.take(n as int))) == views(self.lines@.take(n as int)));
        join_strings(&kept, "\n")
    }
}

} // verus!

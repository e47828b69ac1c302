//! The text fields of the popups: `tui_textarea`'s editor, reached through
//! the few calls the interface makes.
use crate::ui::keys::KeyCode;
use tui_textarea::{Input, Key, TextArea};
use vstd::prelude::*;

verus! {

/// A text editor of `tui_textarea`, held opaque: its lines are reached
/// only through the functions below, whose contracts speak of them as
/// `textarea_lines`.
#[verifier::external_body]
pub struct TextEditor {
    pub inner: TextArea<'static>,
}

/// The lines of text an editor holds (what `TextArea::lines` gives back).
pub uninterp spec fn textarea_lines(t: TextEditor) -> Seq<Seq<char>>;

/// The lines of a text: its pieces between `'\n'`s, each without one
/// trailing `'\r'`.
#[verifier::opaque]
pub open spec fn split_lines(s: Seq<char>) -> Seq<Seq<char>> {
    split_at_newlines(s).map_values(|p: Seq<char>| strip_carriage_return(p))
}

/// The pieces of a text between `'\n'`s (one more piece than newlines).
pub open spec fn split_at_newlines(s: Seq<char>) -> Seq<Seq<char>>
    decreases s.len(),
{
    if s.len() == 0 {
        seq![Seq::<char>::empty()]
    } else if s.last() == '\n' {
        split_at_newlines(s.drop_last()).push(Seq::<char>::empty())
    } else {
        let p = split_at_newlines(s.drop_last());
        p.update(p.len() - 1, p.last().push(s.last()))
    }
}

pub open spec fn strip_carriage_return(p: Seq<char>) -> Seq<char> {
    if p.len() > 0 && p.last() == '\r' {
        p.drop_last()
    } else {
        p
    }
}

/// The lines of an editor that holds nothing.
pub open spec fn empty_lines() -> Seq<Seq<char>> {
    seq![Seq::<char>::empty()]
}

/// A new, empty editor (`TextArea::default`): it holds one empty line.
#[verifier::external_body]
pub(crate) fn textarea_new() -> (t: TextEditor)
    ensures
        textarea_lines(t) == empty_lines(),
{
    TextEditor { inner: TextArea::default() }
}

/// The lines an editor holds (`TextArea::lines`), copied.
#[verifier::external_body]
pub(crate) fn textarea_text(t: &TextEditor) -> (r: Vec<String>)
    ensures
        r@.map_values(|s: String| s@) == textarea_lines(*t),
{
    t.inner.lines().to_vec()
}

/// Inserts a text at the cursor (`TextArea::insert_str`). Into an editor
/// that holds one empty line (its cursor then stands at its start) this
/// leaves the lines of the text; elsewhere what it leaves depends on the
/// cursor, which is not modelled, and nothing is stated.
#[verifier::external_body]
pub(crate) fn textarea_insert_str(t: &mut TextEditor, s: &str)
    ensures
        textarea_lines(*old(t)) == empty_lines() ==> textarea_lines(*final(t)) == split_lines(s@),
{
    t.inner.insert_str(s);
}

/// Whether a key moves the cursor (the keys handed to the editor as
/// moves).
pub open spec fn moves_cursor(code: KeyCode) -> bool {
    code is Left || code is Right || code is Up || code is Down || code is Home || code is End
        || code is PageUp || code is PageDown
}

/// The lines an editor holds after `TextArea::input` with the key that
/// `code` stands for and no modifier. What the editor does depends on all
/// it holds (lines, cursor, selection, history), which the editor value
/// stands for, and on nothing else; the result is named, not described.
pub uninterp spec fn typed_lines(t: TextEditor, code: KeyCode) -> Seq<Seq<char>>;

/// Hands a cursor-moving key without modifiers to the editor
/// (`TextArea::input` with an `Input` whose ctrl, alt and shift are false).
/// Such a key only moves the cursor, so the lines stay as they were (and
/// are what `typed_lines` names); where the cursor ends up is not modelled.
#[verifier::external_body]
fn textarea_move(t: &mut TextEditor, code: KeyCode)
    requires
        moves_cursor(code),
    ensures
        textarea_lines(*final(t)) == typed_lines(*old(t), code),
        textarea_lines(*final(t)) == textarea_lines(*old(t)),
{
    let key = match code {
        KeyCode::Left => Key::Left,
        KeyCode::Right => Key::Right,
        KeyCode::Up => Key::Up,
        KeyCode::Down => Key::Down,
        KeyCode::Home => Key::Home,
        KeyCode::End => Key::End,
        KeyCode::PageUp => Key::PageUp,
        KeyCode::PageDown => Key::PageDown,
        _ => Key::Null,
    };
    t.inner.input(Input { key, ctrl: false, alt: false, shift: false });
}

/// Hands an editing key without modifiers to the editor (`TextArea::input`
/// with an `Input` whose ctrl, alt and shift are false; a key that is
/// neither a character, F-key, Backspace, Enter, Tab, Delete nor Esc is
/// handed over as `Key::Null`). The lines it leaves are named by
/// `typed_lines`; the cursor, selection and history are not modelled.
#[verifier::external_body]
fn textarea_edit(t: &mut TextEditor, code: KeyCode)
    requires
        !moves_cursor(code),
    ensures
        textarea_lines(*final(t)) == typed_lines(*old(t), code),
{
    let key = match code {
        KeyCode::Backspace => Key::Backspace,
        KeyCode::Enter => Key::Enter,
        KeyCode::Tab => Key::Tab,
        KeyCode::Delete => Key::Delete,
        KeyCode::Esc => Key::Esc,
        KeyCode::Char(c) => Key::Char(c),
        KeyCode::F(n) => Key::F(n),
        _ => Key::Null,
    };
    t.inner.input(Input { key, ctrl: false, alt: false, shift: false });
}

/// Hands a key press without modifiers to the editor: keys that move the
/// cursor as such, the others as edits; the lines it leaves are those
/// `typed_lines` names.
pub(crate) fn textarea_input(t: &mut TextEditor, code: KeyCode)
    ensures
        textarea_lines(*final(t)) == typed_lines(*old(t), code),
{
    match code {
        KeyCode::Left | KeyCode::Right | KeyCode::Up | KeyCode::Down | KeyCode::Home | KeyCode::End
        | KeyCode::PageUp | KeyCode::PageDown => textarea_move(t, code),
        _ => textarea_edit(t, code),
    }
}

/// Deletes from the cursor back to the head of its line, or the newline
/// before it when the cursor is at the head (`TextArea::delete_line_by_head`).
/// What is left depends on the cursor: nothing is stated.
#[verifier::external_body]
pub(crate) fn textarea_delete_line_by_head(t: &mut TextEditor) {
    t.inner.delete_line_by_head();
}

/// Deletes from the cursor to the end of its line, or the newline after it
/// when the cursor is at the end (`TextArea::delete_line_by_end`). What is
/// left depends on the cursor: nothing is stated.
#[verifier::external_body]
pub(crate) fn textarea_delete_line_by_end(t: &mut TextEditor) {
    t.inner.delete_line_by_end();
}

/// An editor holding a text: a new editor with the text inserted.
pub fn textarea_with(s: &str) -> (t: TextEditor)
    ensures
        textarea_lines(t) == split_lines(s@),
{
    let mut t = textarea_new();
    textarea_insert_str(&mut t, s);
    t
}

/// The text of an editor's lines joined with nothing between them.
pub open spec fn joined_lines(t: TextEditor) -> Seq<char> {
    crate::text::join(textarea_lines(t), Seq::empty())
}

/// An editor that holds nothing but white space.
#[verifier::opaque]
pub open spec fn blank_text(t: TextEditor) -> bool {
    crate::text::trim(joined_lines(t)).len() == 0
}

/// Whether an editor holds nothing but white space.
pub fn textarea_is_blank(t: &TextEditor) -> (r: bool)
    ensures
        r == blank_text(*t),
{
    proof {
        reveal(blank_text);
    }
    let lines = textarea_text(t);
    proof {
        assert(crate::text::views(lines@) =~= textarea_lines(*t));
    }
    let joined = crate::text::join_strings(&lines, "");
    proof {
        reveal_strlit("");
        assert(""@ =~= Seq::<char>::empty());
    }
    crate::text::is_blank(joined.as_str())
}

} // verus!

use vstd::prelude::*;
use tui_textarea::TextArea;
use tui_textarea::Key as EventKey;
use crate::keys::{Key, KeyInput};
use crate::text::line_views;

verus! {

/// One editable pane: a text buffer with its own cursor. Verus sees only
/// the lines that it holds, through `buffer_lines`.
#[verifier::external_body]
pub struct Buffer<'a> {
    pub area: TextArea<'a>,
}

/// The lines that a text buffer holds.
pub uninterp spec fn buffer_lines(t: Buffer) -> Seq<Seq<char>>;

/// What a buffer holds after its content is replaced by `lines`: the lines
/// themselves, or one empty line where there are none.
pub open spec fn replaced(lines: Seq<Seq<char>>) -> Seq<Seq<char>> {
    if lines.len() == 0 {
        seq![Seq::empty()]
    } else {
        lines
    }
}

/// Relies on `TextArea::new`: the buffer holds the given lines, or a single
/// empty line where none are given.
#[verifier::external_body]
fn new_buffer<'a>(lines: Vec<String>) -> (r: Buffer<'a>)
    ensures
        buffer_lines(r) == replaced(line_views(lines@)),
{
    Buffer { area: TextArea::new(lines) }
}

/// Relies on `TextArea::lines`: the lines that the buffer holds.
#[verifier::external_body]
pub(crate) fn buffer_text(t: &Buffer) -> (r: Vec<String>)
    ensures
        line_views(r@) == buffer_lines(*t),
{
    t.area.lines().to_vec()
}

#[verifier::external_type_specification]
pub struct ExEventKey(EventKey);

/// The widget's name for a key, variant for variant.
fn event_key(k: Key) -> EventKey {
    match k {
        Key::Char(c) => EventKey::Char(c),
        Key::F(n) => EventKey::F(n),
        Key::Backspace => EventKey::Backspace,
        Key::Enter => EventKey::Enter,
        Key::Left => EventKey::Left,
        Key::Right => EventKey::Right,
        Key::Up => EventKey::Up,
        Key::Down => EventKey::Down,
        Key::Tab => EventKey::Tab,
        Key::Delete => EventKey::Delete,
        Key::Home => EventKey::Home,
        Key::End => EventKey::End,
        Key::PageUp => EventKey::PageUp,
        Key::PageDown => EventKey::PageDown,
        Key::Esc => EventKey::Esc,
        Key::Copy => EventKey::Copy,
        Key::Cut => EventKey::Cut,
        Key::Paste => EventKey::Paste,
        Key::MouseScrollDown => EventKey::MouseScrollDown,
        Key::MouseScrollUp => EventKey::MouseScrollUp,
        Key::Null => EventKey::Null,
    }
}

/// The buffer after the text widget's own key mapping has handled `k`.
pub uninterp spec fn edited(t: Buffer, k: KeyInput) -> Buffer;

/// Relies on `TextArea::input`: the buffer that comes out depends on the
/// buffer and the key event alone.
#[verifier::external_body]
pub(crate) fn forward(t: &mut Buffer, k: &KeyInput)
    ensures
        *final(t) == edited(*old(t), *k),
{
    t.area.input(tui_textarea::Input { key: event_key(k.key), ctrl: k.ctrl, alt: k.alt, shift: k.shift });
}

/// An empty buffer.
pub fn empty_buffer<'a>() -> (r: Buffer<'a>)
    ensures
        buffer_lines(r) == seq![Seq::<char>::empty()],
{
    let none: Vec<String> = Vec::new();
    assert(line_views(none@) =~= Seq::empty());
    new_buffer(none)
}

/// Replaces the whole content of a buffer by `lines`.
pub fn insert_lines(textarea: &mut Buffer, lines: &Vec<String>)
    ensures
        buffer_lines(*final(textarea)) == replaced(line_views(lines@)),
{
    *textarea = new_buffer(lines.clone());
}

} // verus!

//! The notification shown when the assistant starts: the kind of window and
//! the texts in the form the window system takes them, as UTF-16 code units
//! closed by a zero.

use vstd::prelude::*;

verus! {

/// Enum representing different window types.
#[derive(Clone, Copy, Debug, PartialEq, Eq, Structural)]
pub enum WindowType {
    _Error,
    Information,
    _Warning,
}

/// The UTF-16 code units of one character: the code point itself below the
/// supplementary planes, a high and a low surrogate above.
pub open spec fn utf16_units(c: char) -> Seq<u16> {
    let code = c as int;
    if code < 0x10000 {
        seq![code as u16]
    } else {
        seq![
            (0xD800 + (code - 0x10000) / 0x400) as u16,
            (0xDC00 + (code - 0x10000) % 0x400) as u16,
        ]
    }
}

/// The UTF-16 code units of a text.
pub open spec fn utf16_spec(text: Seq<char>) -> Seq<u16>
    decreases text.len(),
{
    if text.len() == 0 {
        seq![]
    } else {
        utf16_spec(text.drop_last()) + utf16_units(text.last())
    }
}

/// A text as the window system takes it: its UTF-16 code units and a closing
/// zero.
pub open spec fn wide_string_spec(text: Seq<char>) -> Seq<u16> {
    utf16_spec(text).push(0u16)
}

/// A message box to show: what it says, what its title bar says, and its
/// kind. The window has an OK button and the icon of its kind.
#[derive(Debug, PartialEq, Eq)]
pub struct MessageBoxRequest {
    pub text: Vec<u16>,
    pub caption: Vec<u16>,
    pub window_type: WindowType,
}

/// Appends the UTF-16 code units of one character.
pub fn push_utf16(units: &mut Vec<u16>, c: char)
    ensures
        final(units)@ == old(units)@ + utf16_units(c),
{
    let code: u32 = c as u32;
    if code < 0x10000 {
        units.push(code as u16);
    } else {
        let offset: u32 = code - 0x10000;
        units.push((0xD800 + offset / 0x400) as u16);
        units.push((0xDC00 + offset % 0x400) as u16);
    }
}

/// A text as the window system takes it.
pub fn wide_string(text: &str) -> (units: Vec<u16>)
    ensures
        units@ == wide_string_spec(text@),
{
    let mut units: Vec<u16> = Vec::new();
    for c in it: text.chars()
        invariant
            it.seq() == text@,
            units@ == utf16_spec(text@.take(it.index() as int)),
    {
        push_utf16(&mut units, c);
        proof {
            let longer = text@.take(it.index() + 1);
            assert(longer.drop_last() =~= text@.take(it.index() as int));
        }
    }
    assert(text@.take(text@.len() as int) =~= text@);
    units.push(0);
    units
}

/// The message box with the given title, message and kind.
pub fn message_box(window_title: &str, window_message: &str, window_type: WindowType) -> (request:
    MessageBoxRequest)
    ensures
        request.text@ == wide_string_spec(window_message@),
        request.caption@ == wide_string_spec(window_title@),
        request.window_type == window_type,
{
    MessageBoxRequest {
        text: wide_string(window_message),
        caption: wide_string(window_title),
        window_type,
    }
}

/// A character has one or two units, and none of them is zero unless the
/// character is.
pub proof fn lemma_utf16_units_shape(c: char)
    ensures
        1 <= utf16_units(c).len() <= 2,
        c as int != 0 ==> forall|j: int| 0 <= j < utf16_units(c).len() ==> utf16_units(c)[j] != 0,
{
}

/// A wide string holds one or two units for every character and ends with
/// the closing zero; no unit of a character is zero unless the character is.
pub proof fn lemma_wide_string_shape(text: Seq<char>)
    ensures
        text.len() + 1 <= wide_string_spec(text).len() <= 2 * text.len() + 1,
        wide_string_spec(text).last() == 0,
        (forall|i: int| 0 <= i < text.len() ==> text[i] as int != 0) ==> forall|k: int|
            0 <= k < utf16_spec(text).len() ==> utf16_spec(text)[k] != 0,
    decreases text.len(),
{
    if text.len() > 0 {
        let shorter = text.drop_last();
        lemma_wide_string_shape(shorter);
        lemma_utf16_units_shape(text.last());
    }
}

} // verus!

use vstd::prelude::*;

verus! {

/// What unicode_width reports for one character: its displayed width in
/// terminal columns, or nothing for a control character. The result depends
/// on the character alone.
pub uninterp spec fn char_width(c: char) -> Option<usize>;

/// Display width of one character as used for cursor-to-column translation:
/// a control character occupies no columns.
pub open spec fn display_width(c: char) -> nat {
    match char_width(c) {
        Option::Some(w) => w as nat,
        Option::None => 0,
    }
}

/// Sum of the display widths of the first `n` characters of a line.
pub open spec fn prefix_width(s: Seq<char>, n: int) -> nat
    decreases n,
{
    if n <= 0 {
        0
    } else {
        prefix_width(s, n - 1) + display_width(s[n - 1])
    }
}

/// A column count clipped to what a 16-bit cell coordinate can hold.
pub open spec fn sat16(n: nat) -> nat {
    if n <= u16::MAX {
        n
    } else {
        u16::MAX as nat
    }
}

/// Relies on unicode_width's `UnicodeWidthChar::width`: the displayed width
/// of a character in columns, `None` for a control character. The result
/// depends on the character alone.
#[verifier::external_body]
fn unicode_char_width(c: char) -> (r: Option<usize>)
    ensures
        r == char_width(c),
{
    unicode_width::UnicodeWidthChar::width(c)
}

/// Display width of one character; a control character occupies no columns.
pub fn char_display_width(c: char) -> (w: usize)
    ensures
        w as nat == display_width(c),
{
    match unicode_char_width(c) {
        Option::Some(w) => w,
        Option::None => 0,
    }
}

/// Number of bytes of the UTF-8 encoding of a character.
pub open spec fn utf8_len(c: char) -> nat {
    if (c as u32) < 0x80 {
        1
    } else if (c as u32) < 0x800 {
        2
    } else if (c as u32) < 0x10000 {
        3
    } else {
        4
    }
}

/// Number of bytes of the UTF-8 encoding of a character.
pub fn char_utf8_len(c: char) -> (n: usize)
    ensures
        n as nat == utf8_len(c),
{
    let u = c as u32;
    if u < 0x80 {
        1
    } else if u < 0x800 {
        2
    } else if u < 0x10000 {
        3
    } else {
        4
    }
}

} // verus!

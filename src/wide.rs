//! Conversion of text into the native null-terminated wide (UTF-16) form.

use vstd::prelude::*;

verus! {

/// The character that the native form holds in place of `c`: a null
/// character would end the string early, so it becomes a space.
pub open spec fn sanitized(c: char) -> char {
    if c == '\0' { ' ' } else { c }
}

/// The UTF-16 code units of one character.
pub open spec fn utf16_units(c: char) -> Seq<u16> {
    let v = c as u32;
    if v < 0x10000 {
        seq![v as u16]
    } else {
        let w = (v - 0x10000) as u32;
        seq![(0xD800 + w / 0x400) as u16, (0xDC00 + w % 0x400) as u16]
    }
}

/// The UTF-16 code units of a text, nulls replaced, without terminator.
pub open spec fn wide_units(s: Seq<char>) -> Seq<u16>
    decreases s.len(),
{
    if s.len() == 0 {
        Seq::empty()
    } else {
        wide_units(s.drop_last()) + utf16_units(sanitized(s.last()))
    }
}

/// The native wide form of a text: its code units and a null terminator.
pub open spec fn wide_of(s: Seq<char>) -> Seq<u16> {
    wide_units(s).push(0u16)
}

fn push_units(c: char, buffer: &mut Vec<u16>)
    ensures
        final(buffer)@ == old(buffer)@ + utf16_units(c),
{
    let v = c as u32;
    if v < 0x10000 {
        buffer.push(v as u16);
    } else {
        let w = v - 0x10000;
        buffer.push((0xD800 + w / 0x400) as u16);
        buffer.push((0xDC00 + w % 0x400) as u16);
    }
}

/// Writes the native wide form of `src` into `buffer`, which is cleared first.
pub fn str_to_wstr(src: &str, buffer: &mut Vec<u16>)
    ensures
        final(buffer)@ == wide_of(src@),
{
    buffer.clear();
    let n = src.unicode_len();
    let mut i: usize = 0;
    while i < n
        invariant
            n == src@.len(),
            i <= n,
            buffer@ == wide_units(src@.subrange(0, i as int)),
        decreases n - i,
    {
        let c = src.get_char(i);
        let c = if c == '\0' { ' ' } else { c };
        push_units(c, buffer);
        proof {
            let s = src@.subrange(0, i as int + 1);
            assert(s.drop_last() =~= src@.subrange(0, i as int));
        }
        i = i + 1;
    }
    assert(src@.subrange(0, n as int) =~= src@);
    buffer.push(0u16);
}

} // verus!

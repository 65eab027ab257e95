//! Text for the native dialog: UTF-16 code units ending in a zero unit.
use vstd::prelude::*;
use vstd::std_specs::iter::IteratorSpec;

verus! {

/// The UTF-16 code units of one character: one unit below 0x10000, else a
/// high and a low surrogate.
pub open spec fn utf16_units(c: char) -> Seq<u16> {
    let v = c as int;
    if v < 0x10000 {
        seq![v as u16]
    } else {
        seq![(0xD800 + (v - 0x10000) / 0x400) as u16, (0xDC00 + (v - 0x10000) % 0x400) as u16]
    }
}

/// The UTF-16 encoding of a character sequence.
pub open spec fn utf16_of(s: Seq<char>) -> Seq<u16>
    decreases s.len(),
{
    if s.len() == 0 {
        seq![]
    } else {
        utf16_of(s.drop_last()) + utf16_units(s.last())
    }
}

/// Appends the code units of `c` to `out`.
fn push_utf16(out: &mut Vec<u16>, c: char)
    ensures
        final(out)@ == old(out)@ + utf16_units(c),
{
    let v = c as u32;
    if v < 0x10000 {
        out.push(v as u16);
    } else {
        let w = v - 0x10000;
        out.push((0xD800 + w / 0x400) as u16);
        out.push((0xDC00 + w % 0x400) as u16);
    }
}

/// `s` encoded as UTF-16 with a terminating zero unit, the form that the
/// native dialog takes its title and text in.
pub fn to_wide(s: &str) -> (r: Vec<u16>)
    ensures
        r@ == utf16_of(s@).push(0u16),
{
    let mut out: Vec<u16> = Vec::new();
    let n = s.unicode_len();
    let mut it = s.chars();
    let ghost mut done: Seq<char> = Seq::empty();
    let mut i: usize = 0;
    while i < n
        invariant
            i <= n == s@.len(),
            done == s@.subrange(0, i as int),
            it.remaining() == s@.subrange(i as int, n as int),
            out@ == utf16_of(done),
        decreases n - i,
    {
        let c = it.next().unwrap();
        push_utf16(&mut out, c);
        proof {
            let d2 = done.push(c);
            assert(d2.drop_last() =~= done);
            done = d2;
        }
        i = i + 1;
        assert(done =~= s@.subrange(0, i as int));
        assert(it.remaining() =~= s@.subrange(i as int, n as int));
    }
    out.push(0u16);
    assert(done =~= s@);
    out
}

} // verus!

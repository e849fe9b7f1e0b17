//! Strings as the platform takes them: UTF-16 code units with a terminating
//! zero.

use vstd::prelude::*;
use vstd::slice::slice_subrange;
use vstd::string::StrSliceExecFns;

verus! {

/// The UTF-16 code units of one character: the character itself below
/// U+10000, a high and a low surrogate above.
pub open spec fn utf16_of_char(c: char) -> Seq<u16> {
    let code = c as u32;
    if code < 0x1_0000 {
        seq![code as u16]
    } else {
        seq![
            (0xD800 + (code - 0x1_0000) / 0x400) as u16,
            (0xDC00 + (code - 0x1_0000) % 0x400) as u16,
        ]
    }
}

/// The UTF-16 code units of a text.
pub open spec fn utf16_of(text: Seq<char>) -> Seq<u16>
    decreases text.len(),
{
    if text.len() == 0 {
        Seq::empty()
    } else {
        utf16_of(text.drop_last()) + utf16_of_char(text.last())
    }
}

/// Encodes `string` in UTF-16 and ends it with a zero.
pub fn encode_wide(string: &str) -> (wide: Vec<u16>)
    ensures
        wide@ == utf16_of(string@).push(0u16),
{
    let len: usize = string.unicode_len();
    let mut wide: Vec<u16> = Vec::new();
    let mut i: usize = 0;
    assert(string@.take(0) =~= Seq::<char>::empty());
    while i < len
        invariant
            i <= len,
            len == string@.len(),
            wide@ == utf16_of(string@.take(i as int)),
        decreases len - i,
    {
        let c: char = string.get_char(i);
        let code: u32 = c as u32;
        proof {
            assert(string@.take(i + 1).drop_last() =~= string@.take(i as int));
            assert(string@.take(i + 1).last() == c);
        }
        let ghost before = wide@;
        if code < 0x1_0000 {
            wide.push(code as u16);
            assert(wide@ =~= before + utf16_of_char(c));
        } else {
            let offset: u32 = code - 0x1_0000;
            wide.push((0xD800 + offset / 0x400) as u16);
            wide.push((0xDC00 + offset % 0x400) as u16);
            assert(wide@ =~= before + utf16_of_char(c));
        }
        i += 1;
    }
    assert(string@.take(len as int) =~= string@);
    wide.push(0);
    wide
}

/// The number of code units before the first zero, or the length of `wide`
/// if it holds no zero.
pub open spec fn terminated_len(wide: Seq<u16>) -> nat
    decreases wide.len(),
{
    if wide.len() == 0 || wide[0] == 0 {
        0
    } else {
        1 + terminated_len(wide.drop_first())
    }
}

/// A prefix without zero that a zero or the end follows is the text of the
/// buffer.
pub proof fn lemma_terminated_len_is(wide: Seq<u16>, n: int)
    requires
        0 <= n <= wide.len(),
        forall|k: int| 0 <= k < n ==> wide[k] != 0,
        n < wide.len() ==> wide[n] == 0,
    ensures
        terminated_len(wide) == n,
    decreases wide.len(),
{
    if n > 0 {
        let rest = wide.drop_first();
        assert forall|k: int| 0 <= k < n - 1 implies rest[k] != 0 by {
            assert(rest[k] == wide[k + 1]);
        }
        if n - 1 < rest.len() {
            assert(rest[n - 1] == wide[n]);
        }
        lemma_terminated_len_is(rest, n - 1);
        assert(wide[0] != 0);
    }
}

/// The code units of a zero-terminated string: what stands before the first
/// zero, or all of `wide` if it holds none.
pub fn decode_wide(wide: &[u16]) -> (text: &[u16])
    ensures
        text@ == wide@.take(terminated_len(wide@) as int),
        terminated_len(wide@) <= wide@.len(),
        forall|k: int| 0 <= k < text@.len() ==> text@[k] != 0,
        text@.len() < wide@.len() ==> wide@[text@.len() as int] == 0,
{
    let mut n: usize = 0;
    while n < wide.len() && wide[n] != 0
        invariant
            n <= wide.len(),
            forall|k: int| 0 <= k < n ==> wide@[k] != 0,
        decreases wide.len() - n,
    {
        n += 1;
    }
    proof {
        lemma_terminated_len_is(wide@, n as int);
    }
    slice_subrange(wide, 0, n)
}

} // verus!

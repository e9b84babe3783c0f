//! Text utilities over the UTF-16 code-unit buffer of one source file.
//!
//! All offsets used by the scanner are UTF-16 code-unit positions from the
//! start of the source text. This module provides
//! - the conversion from UTF-8 byte offsets (as an external parser may
//!   report them) to UTF-16 code-unit offsets,
//! - backward trimming over trailing whitespace and semicolons, and
//! - forward scanning for a short literal.

use vstd::prelude::*;

verus! {

/// The UTF-16 code unit of `;`.
pub const SEMI_UNIT: u16 = 0x3B;

/// Whether a single UTF-16 code unit is a whitespace character.
///
/// This is exactly the set of Unicode whitespace code points that lie in the
/// basic multilingual plane (no whitespace lies outside it), so it agrees
/// with `char::is_whitespace` on every code unit that is a valid scalar
/// value; unpaired surrogates are not whitespace.
pub open spec fn is_ws_unit(u: u16) -> bool {
    u == 0x09 || u == 0x0A || u == 0x0B || u == 0x0C || u == 0x0D || u == 0x20 || u == 0x85
        || u == 0xA0 || u == 0x1680 || (0x2000 <= u && u <= 0x200A) || u == 0x2028 || u == 0x2029
        || u == 0x202F || u == 0x205F || u == 0x3000
}

/// Whether a code unit is skipped by the backward statement-end trimming:
/// whitespace or a semicolon.
pub open spec fn is_trim_unit(u: u16) -> bool {
    is_ws_unit(u) || u == SEMI_UNIT
}

/// One past the last code unit in `code[0..r]` that is not whitespace and
/// not a semicolon, or `-1` if every unit of that prefix is trimmable.
pub open spec fn sig_end(code: Seq<u16>, r: int) -> int
    decreases r,
{
    if r <= 0 || r > code.len() {
        -1
    } else if is_trim_unit(code[r - 1]) {
        sig_end(code, r - 1)
    } else {
        r
    }
}

/// The backward trimming applied to every statement-span end before a record
/// is stored: scan back from `end` over whitespace and semicolons and return
/// one past the last significant code unit, or the (clamped) `end` itself
/// unchanged when the whole prefix is whitespace/semicolons.
pub open spec fn trim_end_spec(code: Seq<u16>, end: int) -> int {
    let r = if end <= code.len() { end } else { code.len() as int };
    if sig_end(code, r) < 0 {
        r
    } else {
        sig_end(code, r)
    }
}

/// First position `i >= from` at which `pat` occurs in `code`, or `-1` when
/// there is no such occurrence.
pub open spec fn find_from(code: Seq<u16>, pat: Seq<u16>, i: int) -> int
    decreases code.len() - i,
{
    if i < 0 || i + pat.len() > code.len() {
        -1
    } else if pat.len() == 0 {
        i
    } else if code.subrange(i, i + pat.len()) == pat {
        i
    } else {
        find_from(code, pat, i + 1)
    }
}

/// Forward literal search with the "never fails" convention of the scanner:
/// the first occurrence of `pat` at or after `from`, and `from` itself when
/// the literal does not occur.
pub open spec fn find_or_start(code: Seq<u16>, pat: Seq<u16>, from: int) -> int {
    if find_from(code, pat, from) < 0 {
        from
    } else {
        find_from(code, pat, from)
    }
}

/// UTF-16 code units contributed by one byte of well-formed UTF-8: a
/// continuation byte contributes none, the leading byte of a four-byte
/// sequence two (a surrogate pair), every other byte one.
pub open spec fn utf16_units_of_byte(b: u8) -> int {
    if b < 0x80 {
        1
    } else if b < 0xC0 {
        0
    } else if b < 0xF0 {
        1
    } else {
        2
    }
}

/// UTF-16 length of the first `n` bytes of a UTF-8 buffer.
pub open spec fn utf16_len_of_prefix(bytes: Seq<u8>, n: int) -> int
    decreases n,
{
    if n <= 0 {
        0
    } else {
        utf16_len_of_prefix(bytes, n - 1) + utf16_units_of_byte(bytes[n - 1])
    }
}

/// Whether a single UTF-16 code unit is a whitespace character; agrees with
/// [`is_ws_unit`].
pub fn is_whitespace_unit(u: u16) -> (b: bool)
    ensures
        b == is_ws_unit(u),
{
    u == 0x09 || u == 0x0A || u == 0x0B || u == 0x0C || u == 0x0D || u == 0x20 || u == 0x85
        || u == 0xA0 || u == 0x1680 || (0x2000 <= u && u <= 0x200A) || u == 0x2028 || u == 0x2029
        || u == 0x202F || u == 0x205F || u == 0x3000
}

/// Scan backward from `end` over whitespace and semicolons; return one past
/// the last significant code unit, or `end` (clamped to the buffer length)
/// when the entire prefix is whitespace/semicolons.
pub fn trim_end_index(code: &Vec<u16>, end: usize) -> (r: usize)
    ensures
        r as int == trim_end_spec(code@, end as int),
        r <= end,
{
    let len: usize = code.len();
    let right: usize = if end < len {
        end
    } else {
        len
    };
    let mut i: usize = right;
    loop
        invariant
            i <= right <= code@.len(),
            sig_end(code@, right as int) == sig_end(code@, i as int),
        ensures
            i <= right <= code@.len(),
            sig_end(code@, right as int) == sig_end(code@, i as int),
            i == 0 || !is_trim_unit(code@[i as int - 1]),
        decreases i,
    {
        if i == 0 {
            break;
        }
        let u: u16 = code[i - 1];
        if is_whitespace_unit(u) || u == SEMI_UNIT {
            i = i - 1;
        } else {
            break;
        }
    }
    if i == 0 {
        right
    } else {
        assert(sig_end(code@, i as int) == i);
        i
    }
}

/// Forward search for `pat` starting at `from`; the first match position, or
/// `from` itself when `pat` does not occur at or after `from`.
pub fn find_index_of(code: &Vec<u16>, pat: &Vec<u16>, from: usize) -> (r: usize)
    requires
        from <= code@.len(),
        1 <= pat@.len() < 0x4000_0000,
        code@.len() < 0x4000_0000,
    ensures
        r as int == find_or_start(code@, pat@, from as int),
        from <= r <= code@.len(),
{
    let mut i: usize = from;
    loop
        invariant
            from <= i,
            i <= code@.len() + 1,
            from <= code@.len(),
            1 <= pat@.len() < 0x4000_0000,
            code@.len() < 0x4000_0000,
            find_from(code@, pat@, from as int) == find_from(code@, pat@, i as int),
        decreases code@.len() + 1 - i,
    {
        if i + pat.len() > code.len() {
            assert(find_from(code@, pat@, i as int) == -1);
            return from;
        }
        let mut k: usize = 0;
        let mut mismatch = false;
        while k < pat.len()
            invariant
                k <= pat@.len(),
                i + pat@.len() <= code@.len(),
                1 <= pat@.len(),
                code@.len() < 0x4000_0000,
                !mismatch ==> forall|j: int| 0 <= j < k ==> code@[i + j] == pat@[j],
                mismatch ==> code@.subrange(i as int, i + pat@.len()) != pat@,
            decreases pat@.len() - k,
        {
            if code[i + k] != pat[k] {
                proof {
                    let sub = code@.subrange(i as int, i + pat@.len());
                    assert(sub[k as int] == code@[i + k]);
                }
                mismatch = true;
                k = pat.len();
            } else {
                k = k + 1;
            }
        }
        if !mismatch {
            proof {
                let sub = code@.subrange(i as int, i + pat@.len());
                assert(sub =~= pat@);
            }
            return i;
        }
        i = i + 1;
    }
}

/// Convert a UTF-8 byte offset into the corresponding UTF-16 code-unit
/// offset of the same source text. For a `byte_off` that lies on a character
/// boundary of well-formed UTF-8, the result is the UTF-16 length of the
/// text before that boundary.
pub fn utf16_offset_at(bytes: &Vec<u8>, byte_off: usize) -> (r: usize)
    requires
        byte_off <= bytes@.len(),
        bytes@.len() < 0x4000_0000,
    ensures
        r as int == utf16_len_of_prefix(bytes@, byte_off as int),
{
    let mut acc: usize = 0;
    let mut i: usize = 0;
    while i < byte_off
        invariant
            i <= byte_off <= bytes@.len(),
            bytes@.len() < 0x4000_0000,
            acc as int == utf16_len_of_prefix(bytes@, i as int),
            acc <= 2 * i,
        decreases byte_off - i,
    {
        let b: u8 = bytes[i];
        if b < 0x80 {
            acc = acc + 1;
        } else if b < 0xC0 {
        } else if b < 0xF0 {
            acc = acc + 1;
        } else {
            acc = acc + 2;
        }
        i = i + 1;
    }
    acc
}

} // verus!

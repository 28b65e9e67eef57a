//! Verified text encodings used by the signature protocol: lowercase
//! hexadecimal encoding of byte strings and decimal rendering of integers.

use vstd::prelude::*;
use vstd::string::StringExecFns;

verus! {

/// The lowercase hexadecimal character for a digit value in `0..16`.
pub open spec fn hex_digit(d: int) -> char {
    if d == 0 { '0' } else if d == 1 { '1' } else if d == 2 { '2' }
    else if d == 3 { '3' } else if d == 4 { '4' } else if d == 5 { '5' }
    else if d == 6 { '6' } else if d == 7 { '7' } else if d == 8 { '8' }
    else if d == 9 { '9' } else if d == 10 { 'a' } else if d == 11 { 'b' }
    else if d == 12 { 'c' } else if d == 13 { 'd' } else if d == 14 { 'e' }
    else { 'f' }
}

/// Lowercase hexadecimal encoding of a byte string, two characters per byte,
/// high nibble first.
pub open spec fn hex_of(bytes: Seq<u8>) -> Seq<char>
    decreases bytes.len(),
{
    if bytes.len() == 0 {
        Seq::<char>::empty()
    } else {
        hex_of(bytes.drop_last()) + seq![
            hex_digit(bytes.last() as int / 16),
            hex_digit(bytes.last() as int % 16),
        ]
    }
}

/// A character that can appear in a lowercase hexadecimal encoding.
pub open spec fn is_hex_char(c: char) -> bool {
    exists|d: int| 0 <= d < 16 && c == hex_digit(d)
}

/// Every character of a hex encoding is a lowercase hexadecimal digit, and
/// the encoding is twice as long as the input.
pub proof fn lemma_hex_of_shape(bytes: Seq<u8>)
    ensures
        hex_of(bytes).len() == 2 * bytes.len(),
        forall|i: int| 0 <= i < hex_of(bytes).len() ==> is_hex_char(#[trigger] hex_of(bytes)[i]),
    decreases bytes.len(),
{
    if bytes.len() > 0 {
        lemma_hex_of_shape(bytes.drop_last());
        assert forall|i: int| 0 <= i < hex_of(bytes).len() implies is_hex_char(
            #[trigger] hex_of(bytes)[i],
        ) by {
            let prefix = hex_of(bytes.drop_last());
            if i < prefix.len() {
                assert(hex_of(bytes)[i] == prefix[i]);
            } else if i == prefix.len() {
                let d = bytes.last() as int / 16;
                assert(0 <= d < 16);
                assert(hex_of(bytes)[i] == hex_digit(d));
            } else {
                let d = bytes.last() as int % 16;
                assert(0 <= d < 16);
                assert(hex_of(bytes)[i] == hex_digit(d));
            }
        }
    }
}

/// The decimal character for a digit value in `0..10`.
pub open spec fn dec_digit(d: int) -> char {
    if d == 0 { '0' } else if d == 1 { '1' } else if d == 2 { '2' }
    else if d == 3 { '3' } else if d == 4 { '4' } else if d == 5 { '5' }
    else if d == 6 { '6' } else if d == 7 { '7' } else if d == 8 { '8' }
    else { '9' }
}

/// Decimal rendering of a non-negative integer, without leading zeros
/// (a single `'0'` for zero).
pub open spec fn dec_of_uint(n: int) -> Seq<char>
    decreases n,
{
    if n < 10 {
        seq![dec_digit(n)]
    } else {
        dec_of_uint(n / 10) + seq![dec_digit(n % 10)]
    }
}

/// Decimal rendering of an integer: a leading `'-'` for negative values.
pub open spec fn dec_of_int(n: int) -> Seq<char> {
    if n < 0 {
        seq!['-'] + dec_of_uint(-n)
    } else {
        dec_of_uint(n)
    }
}

/// Appends the character for one hexadecimal digit value.
fn append_hex_digit(s: &mut String, d: u8)
    requires
        d < 16,
    ensures
        final(s)@ == old(s)@ + seq![hex_digit(d as int)],
{
    proof {
        reveal_strlit("0"); reveal_strlit("1"); reveal_strlit("2"); reveal_strlit("3");
        reveal_strlit("4"); reveal_strlit("5"); reveal_strlit("6"); reveal_strlit("7");
        reveal_strlit("8"); reveal_strlit("9"); reveal_strlit("a"); reveal_strlit("b");
        reveal_strlit("c"); reveal_strlit("d"); reveal_strlit("e"); reveal_strlit("f");
    }
    match d {
        0 => s.append("0"),
        1 => s.append("1"),
        2 => s.append("2"),
        3 => s.append("3"),
        4 => s.append("4"),
        5 => s.append("5"),
        6 => s.append("6"),
        7 => s.append("7"),
        8 => s.append("8"),
        9 => s.append("9"),
        10 => s.append("a"),
        11 => s.append("b"),
        12 => s.append("c"),
        13 => s.append("d"),
        14 => s.append("e"),
        _ => s.append("f"),
    }
}

/// Appends the lowercase hexadecimal encoding of `bytes`.
fn append_hex(s: &mut String, bytes: &[u8])
    ensures
        final(s)@ == old(s)@ + hex_of(bytes@),
{
    let mut i: usize = 0;
    while i < bytes.len()
        invariant
            i <= bytes.len(),
            s@ == old(s)@ + hex_of(bytes@.subrange(0, i as int)),
        decreases bytes.len() - i,
    {
        let b = bytes[i];
        append_hex_digit(s, b / 16);
        append_hex_digit(s, b % 16);
        proof {
            let prefix = bytes@.subrange(0, i as int);
            let ext = bytes@.subrange(0, i + 1 as int);
            assert(ext.drop_last() =~= prefix);
            assert(ext.last() == b);
            assert(hex_of(ext) == hex_of(prefix) + seq![
                hex_digit(b as int / 16),
                hex_digit(b as int % 16),
            ]);
        }
        i = i + 1;
    }
    proof {
        assert(bytes@.subrange(0, bytes@.len() as int) =~= bytes@);
    }
}

/// Lowercase hexadecimal encoding of a byte string.
pub fn hex_encode(bytes: &[u8]) -> (r: String)
    ensures
        r@ == hex_of(bytes@),
{
    let mut s = String::new();
    append_hex(&mut s, bytes);
    s
}

/// Appends the character for one decimal digit value.
fn append_dec_digit(s: &mut String, d: u8)
    requires
        d < 10,
    ensures
        final(s)@ == old(s)@ + seq![dec_digit(d as int)],
{
    proof {
        reveal_strlit("0"); reveal_strlit("1"); reveal_strlit("2"); reveal_strlit("3");
        reveal_strlit("4"); reveal_strlit("5"); reveal_strlit("6"); reveal_strlit("7");
        reveal_strlit("8"); reveal_strlit("9");
    }
    match d {
        0 => s.append("0"),
        1 => s.append("1"),
        2 => s.append("2"),
        3 => s.append("3"),
        4 => s.append("4"),
        5 => s.append("5"),
        6 => s.append("6"),
        7 => s.append("7"),
        8 => s.append("8"),
        _ => s.append("9"),
    }
}

/// Appends the decimal rendering of an unsigned integer.
fn append_dec_uint(s: &mut String, n: u64)
    ensures
        final(s)@ == old(s)@ + dec_of_uint(n as int),
    decreases n,
{
    if n >= 10 {
        append_dec_uint(s, n / 10);
    }
    append_dec_digit(s, (n % 10) as u8);
}

/// Decimal rendering of a signed integer, as `i64::to_string` produces it.
pub fn dec_string_of_i64(n: i64) -> (r: String)
    ensures
        r@ == dec_of_int(n as int),
{
    let mut s = String::new();
    if n >= 0 {
        append_dec_uint(&mut s, n as u64);
    } else {
        proof {
            reveal_strlit("-");
        }
        s.append("-");
        let mag: u64 = ((-(n + 1)) as u64) + 1;
        assert(mag as int == -(n as int));
        append_dec_uint(&mut s, mag);
    }
    s
}

} // verus!

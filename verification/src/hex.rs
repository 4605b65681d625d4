//! Lower-case hexadecimal text.

use vstd::prelude::*;
use vstd::string::*;

verus! {

/// The lower-case digit for a value below sixteen.
pub open spec fn hex_digit(n: int) -> char
    recommends
        0 <= n < 16,
{
    if n < 10 {
        ('0' as int + n) as char
    } else {
        ('a' as int + n - 10) as char
    }
}

/// The value of a hexadecimal digit of either case.
pub open spec fn hex_value(c: char) -> Option<int> {
    if '0' <= c <= '9' {
        Some(c as int - '0' as int)
    } else if 'a' <= c <= 'f' {
        Some(c as int - 'a' as int + 10)
    } else if 'A' <= c <= 'F' {
        Some(c as int - 'A' as int + 10)
    } else {
        None
    }
}

/// Non-empty text made of hexadecimal digits only.
pub open spec fn is_hex_text(s: Seq<char>) -> bool {
    s.len() > 0 && forall|i: int| 0 <= i < s.len() ==> (#[trigger] hex_value(s[i])) is Some
}

/// Non-empty text made of lower-case hexadecimal digits only.
pub open spec fn is_lower_hex_text(s: Seq<char>) -> bool {
    s.len() > 0 && forall|i: int|
        0 <= i < s.len() ==> ('0' <= #[trigger] s[i] <= '9' || 'a' <= s[i] <= 'f')
}

/// Hexadecimal text with every digit in lower case.
pub open spec fn lowered(s: Seq<char>) -> Seq<char>
    recommends
        is_hex_text(s),
{
    Seq::new(s.len(), |i: int| hex_digit(hex_value(s[i]).unwrap()))
}

/// Two digits for each byte, the high half first.
pub open spec fn hex_of_bytes(bytes: Seq<u8>) -> Seq<char> {
    Seq::new(
        2 * bytes.len(),
        |i: int|
            if i % 2 == 0 {
                hex_digit(bytes[i / 2] as int / 16)
            } else {
                hex_digit(bytes[i / 2] as int % 16)
            },
    )
}

/// The `i`-th group of four bits of `x`, counted from the top.
pub open spec fn nibble(x: u128, i: int) -> int
    recommends
        0 <= i < 32,
{
    ((x >> (((31 - i) * 4) as u128)) & 0xf) as int
}

/// All thirty-two digits of `x`, the highest first.
pub open spec fn hex_of_u128(x: u128) -> Seq<char> {
    Seq::new(32, |i: int| hex_digit(nibble(x, i)))
}

/// The digit for `n` as a piece of text.
pub fn digit_str(n: u8) -> (s: &'static str)
    requires
        n < 16,
    ensures
        s@ == seq![hex_digit(n as int)],
{
    proof {
        reveal_strlit("0");
        reveal_strlit("1");
        reveal_strlit("2");
        reveal_strlit("3");
        reveal_strlit("4");
        reveal_strlit("5");
        reveal_strlit("6");
        reveal_strlit("7");
        reveal_strlit("8");
        reveal_strlit("9");
        reveal_strlit("a");
        reveal_strlit("b");
        reveal_strlit("c");
        reveal_strlit("d");
        reveal_strlit("e");
        reveal_strlit("f");
    }
    let s = match n {
        0 => "0",
        1 => "1",
        2 => "2",
        3 => "3",
        4 => "4",
        5 => "5",
        6 => "6",
        7 => "7",
        8 => "8",
        9 => "9",
        10 => "a",
        11 => "b",
        12 => "c",
        13 => "d",
        14 => "e",
        _ => "f",
    };
    assert(s@ =~= seq![hex_digit(n as int)]);
    s
}

/// The value of the digit `c`, if it is one.
pub fn digit_value(c: char) -> (r: Option<u8>)
    ensures
        r is Some <==> hex_value(c) is Some,
        r matches Some(n) ==> n as int == hex_value(c).unwrap() && n < 16,
{
    if c >= '0' && c <= '9' {
        Some((c as u8) - 48)
    } else if c >= 'a' && c <= 'f' {
        Some((c as u8) - 87)
    } else if c >= 'A' && c <= 'F' {
        Some((c as u8) - 55)
    } else {
        None
    }
}

/// The text `s` with its digits in lower case, or `None` where `s` is not
/// hexadecimal text.
pub fn lower_hex(s: &str) -> (r: Option<String>)
    ensures
        r is Some <==> is_hex_text(s@),
        r matches Some(t) ==> t@ == lowered(s@),
{
    let chars = crate::text::chars_of(s);
    if chars.len() == 0 {
        return None;
    }
    let mut out = String::new();
    let mut i: usize = 0;
    while i < chars.len()
        invariant
            i <= chars.len(),
            chars@ == s@,
            out@.len() == i,
            forall|k: int| 0 <= k < i ==> (#[trigger] hex_value(s@[k])) is Some,
            forall|k: int| 0 <= k < i ==> out@[k] == hex_digit(hex_value(s@[k]).unwrap()),
        decreases chars.len() - i,
    {
        match digit_value(chars[i]) {
            Some(n) => {
                out.append(digit_str(n));
            },
            None => {
                assert(hex_value(s@[i as int]) is None);
                return None;
            },
        }
        i += 1;
    }
    assert(out@ =~= lowered(s@));
    Some(out)
}

/// The bytes `bytes` as hexadecimal text.
pub fn hex_encode(bytes: &Vec<u8>) -> (r: String)
    ensures
        r@ == hex_of_bytes(bytes@),
{
    let mut out = String::new();
    let mut i: usize = 0;
    while i < bytes.len()
        invariant
            i <= bytes.len(),
            out@.len() == 2 * i,
            forall|k: int| 0 <= k < 2 * i ==> out@[k] == hex_of_bytes(bytes@)[k],
        decreases bytes.len() - i,
    {
        let b = bytes[i];
        out.append(digit_str(b / 16));
        out.append(digit_str(b % 16));
        i += 1;
    }
    assert(out@ =~= hex_of_bytes(bytes@));
    out
}

/// The number `x` as thirty-two hexadecimal digits.
pub fn hex_encode_u128(x: u128) -> (r: String)
    ensures
        r@ == hex_of_u128(x),
{
    let mut out = String::new();
    let mut i: u128 = 0;
    while i < 32
        invariant
            i <= 32,
            out@.len() == i,
            forall|k: int| 0 <= k < i ==> out@[k] == hex_digit(nibble(x, k)),
        decreases 32 - i,
    {
        let shift: u128 = (31 - i) * 4;
        let n = (x >> shift) & 0xf;
        assert(n < 16) by (bit_vector)
            requires
                n == (x >> shift) & 0xf,
        ;
        out.append(digit_str(n as u8));
        i += 1;
    }
    assert(out@ =~= hex_of_u128(x));
    out
}

/// Encoded bytes are lower-case hexadecimal text, which lowering leaves as
/// it is.
pub proof fn lemma_hex_of_bytes_is_lower(bytes: Seq<u8>)
    requires
        bytes.len() > 0,
    ensures
        is_lower_hex_text(hex_of_bytes(bytes)),
        is_hex_text(hex_of_bytes(bytes)),
        lowered(hex_of_bytes(bytes)) == hex_of_bytes(bytes),
{
    let h = hex_of_bytes(bytes);
    assert forall|i: int| 0 <= i < h.len() implies ('0' <= #[trigger] h[i] <= '9' || 'a' <= h[i]
        <= 'f') by {
        let b = bytes[i / 2] as int;
        assert(0 <= b / 16 < 16 && 0 <= b % 16 < 16);
    }
    lemma_lower_hex_is_fixed(h);
}

/// Lower-case hexadecimal text is hexadecimal text that lowering does not
/// change.
pub proof fn lemma_lower_hex_is_fixed(s: Seq<char>)
    requires
        is_lower_hex_text(s),
    ensures
        is_hex_text(s),
        lowered(s) == s,
{
    assert forall|i: int| 0 <= i < s.len() implies (#[trigger] hex_value(s[i])) is Some
        && hex_digit(hex_value(s[i]).unwrap()) == s[i] by {
        let c = s[i];
        assert('0' <= c <= '9' || 'a' <= c <= 'f');
    }
    assert(lowered(s) =~= s);
}

} // verus!

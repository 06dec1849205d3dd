//! Lower-case hexadecimal encoding of bytes and its inverse.

use vstd::prelude::*;
use vstd::string::*;
use crate::text::{all_ascii_hex, all_hex_digits, ascii_lower, chars_of, is_ascii_hex_digit};

verus! {

/// The sixteen digits, in value order.
pub open spec fn hex_alphabet() -> Seq<char> {
    seq!['0', '1', '2', '3', '4', '5', '6', '7', '8', '9', 'a', 'b', 'c', 'd', 'e', 'f']
}

/// The value of one hexadecimal digit (either case).
pub open spec fn hex_value(c: char) -> int {
    if '0' <= c && c <= '9' {
        c as int - '0' as int
    } else if 'a' <= c && c <= 'f' {
        c as int - 'a' as int + 10
    } else if 'A' <= c && c <= 'F' {
        c as int - 'A' as int + 10
    } else {
        0
    }
}

/// Two lower-case digits per byte, high nibble first.
pub open spec fn hex_encode(b: Seq<u8>) -> Seq<char>
    decreases b.len(),
{
    if b.len() == 0 {
        Seq::empty()
    } else {
        hex_encode(b.drop_last()) + seq![
            hex_alphabet()[b.last() as int / 16],
            hex_alphabet()[b.last() as int % 16],
        ]
    }
}

/// The bytes that an even-length string of hexadecimal digits denotes, or `None`.
pub open spec fn hex_decode(s: Seq<char>) -> Option<Seq<u8>> {
    if s.len() % 2 == 0 && all_ascii_hex(s) {
        Some(
            Seq::new(
                s.len() / 2,
                |i: int| (hex_value(s[2 * i]) * 16 + hex_value(s[2 * i + 1])) as u8,
            ),
        )
    } else {
        None
    }
}

proof fn lemma_alphabet(k: int)
    requires
        0 <= k < 16,
    ensures
        is_ascii_hex_digit(hex_alphabet()[k]),
        hex_value(hex_alphabet()[k]) == k,
        hex_alphabet()[k] as int == if k < 10 {
            48 + k
        } else {
            87 + k
        },
{
    assert(hex_alphabet()[k] == hex_alphabet()[k]);
    if k == 0 {
    } else if k == 1 {
    } else if k == 2 {
    } else if k == 3 {
    } else if k == 4 {
    } else if k == 5 {
    } else if k == 6 {
    } else if k == 7 {
    } else if k == 8 {
    } else if k == 9 {
    } else if k == 10 {
    } else if k == 11 {
    } else if k == 12 {
    } else if k == 13 {
    } else if k == 14 {
    } else {
    }
}

/// Where each byte's digits stand in the encoding.
pub proof fn lemma_hex_encode_index(b: Seq<u8>)
    ensures
        hex_encode(b).len() == 2 * b.len(),
        forall|i: int|
            0 <= i < b.len() ==> {
                &&& #[trigger] hex_encode(b)[2 * i] == hex_alphabet()[b[i] as int / 16]
                &&& hex_encode(b)[2 * i + 1] == hex_alphabet()[b[i] as int % 16]
            },
    decreases b.len(),
{
    if b.len() > 0 {
        lemma_hex_encode_index(b.drop_last());
        let e = hex_encode(b);
        let p = hex_encode(b.drop_last());
        assert forall|i: int| 0 <= i < b.len() implies {
            &&& #[trigger] hex_encode(b)[2 * i] == hex_alphabet()[b[i] as int / 16]
            &&& hex_encode(b)[2 * i + 1] == hex_alphabet()[b[i] as int % 16]
        } by {
            if i < b.len() - 1 {
                assert(b.drop_last()[i] == b[i]);
                assert(p[2 * i] == e[2 * i]);
                assert(p[2 * i + 1] == e[2 * i + 1]);
            }
        }
    }
}

/// Every character of an encoding is a hexadecimal digit.
pub proof fn lemma_hex_encode_digits(b: Seq<u8>)
    ensures
        all_ascii_hex(hex_encode(b)),
{
    lemma_hex_encode_index(b);
    let e = hex_encode(b);
    assert forall|j: int| 0 <= j < e.len() implies is_ascii_hex_digit(#[trigger] e[j]) by {
        let i = j / 2;
        assert(0 <= i < b.len());
        if j % 2 == 0 {
            assert(j == 2 * i);
            assert(e[2 * i] == hex_alphabet()[b[i] as int / 16]);
            lemma_alphabet(b[i] as int / 16);
        } else {
            assert(j == 2 * i + 1);
            assert(e[2 * i] == hex_alphabet()[b[i] as int / 16]);
            lemma_alphabet(b[i] as int % 16);
        }
    }
}

/// Decoding an encoding gives back the bytes.
pub proof fn lemma_hex_round_trip(b: Seq<u8>)
    ensures
        hex_decode(hex_encode(b)) == Some(b),
{
    lemma_hex_encode_index(b);
    lemma_hex_encode_digits(b);
    let e = hex_encode(b);
    let d = hex_decode(e).unwrap();
    assert(d.len() == b.len());
    assert forall|i: int| 0 <= i < b.len() implies d[i] == b[i] by {
        lemma_alphabet(b[i] as int / 16);
        lemma_alphabet(b[i] as int % 16);
        assert(e[2 * i] == hex_alphabet()[b[i] as int / 16]);
    }
    assert(d =~= b);
}

proof fn lemma_digit_lower(c: char)
    requires
        is_ascii_hex_digit(c),
    ensures
        0 <= hex_value(c) < 16,
        hex_alphabet()[hex_value(c)] == ascii_lower(c),
{
    let k = hex_value(c);
    lemma_alphabet(k);
    let a = hex_alphabet()[k];
    if 'A' <= c && c <= 'F' {
        assert(ascii_lower(c) as int == c as int + 32);
    }
    assert(a as int == ascii_lower(c) as int);
}

/// Decoding succeeds exactly on an even number of hexadecimal digits, gives
/// half as many bytes, and encoding those bytes again gives the text in
/// ASCII lower case.
pub proof fn law_decode_then_encode(s: Seq<char>)
    ensures
        hex_decode(s) is Some <==> (s.len() % 2 == 0 && all_ascii_hex(s)),
        hex_decode(s) matches Some(b) ==> b.len() == s.len() / 2 && hex_encode(b) == s.map_values(
            |c: char| ascii_lower(c),
        ),
{
    if let Some(b) = hex_decode(s) {
        lemma_hex_encode_index(b);
        let e = hex_encode(b);
        let l = s.map_values(|c: char| ascii_lower(c));
        assert forall|j: int| 0 <= j < e.len() implies e[j] == l[j] by {
            let i = j / 2;
            assert(0 <= i < b.len());
            assert(is_ascii_hex_digit(s[2 * i]));
            assert(is_ascii_hex_digit(s[2 * i + 1]));
            lemma_digit_lower(s[2 * i]);
            lemma_digit_lower(s[2 * i + 1]);
            let v = hex_value(s[2 * i]) * 16 + hex_value(s[2 * i + 1]);
            assert(0 <= v < 256);
            assert(b[i] == v as u8);
            assert(b[i] as int == v);
            assert(e[2 * i] == hex_alphabet()[b[i] as int / 16]);
            assert(e[2 * i + 1] == hex_alphabet()[b[i] as int % 16]);
            assert(l[2 * i] == ascii_lower(s[2 * i]));
            assert(l[2 * i + 1] == ascii_lower(s[2 * i + 1]));
            assert(v / 16 == hex_value(s[2 * i]));
            assert(v % 16 == hex_value(s[2 * i + 1]));
            if j % 2 == 0 {
                assert(j == 2 * i);
            } else {
                assert(j == 2 * i + 1);
            }
        }
        assert(e =~= l);
    }
}

fn digit_str(n: u8) -> (r: &'static str)
    requires
        n < 16,
    ensures
        r@ == seq![hex_alphabet()[n as int]],
{
    proof {
        reveal_strlit("0");
        reveal_strlit("1");
        reveal_strlit("2");
        reveal_strlit("3");
        reveal_strlit("4");
        reveal_strlit("5");
        reveal_strlit("6");
        reveal_strlit("7");
        reveal_strlit("8");
        reveal_strlit("9");
        reveal_strlit("a");
        reveal_strlit("b");
        reveal_strlit("c");
        reveal_strlit("d");
        reveal_strlit("e");
        reveal_strlit("f");
    }
    let r = match n {
        0 => "0",
        1 => "1",
        2 => "2",
        3 => "3",
        4 => "4",
        5 => "5",
        6 => "6",
        7 => "7",
        8 => "8",
        9 => "9",
        10 => "a",
        11 => "b",
        12 => "c",
        13 => "d",
        14 => "e",
        _ => "f",
    };
    assert(r@ =~= seq![hex_alphabet()[n as int]]);
    r
}

/// Lower-case hexadecimal text of `bytes`, two digits per byte.
pub fn hex(bytes: &[u8]) -> (r: String)
    ensures
        r@ == hex_encode(bytes@),
{
    let mut out = String::new();
    let mut i: usize = 0;
    while i < bytes.len()
        invariant
            i <= bytes@.len(),
            out@ == hex_encode(bytes@.subrange(0, i as int)),
        decreases bytes@.len() - i,
    {
        let b = bytes[i];
        out.append(digit_str(b / 16));
        out.append(digit_str(b % 16));
        proof {
            let p = bytes@.subrange(0, i as int + 1);
            assert(p.drop_last() =~= bytes@.subrange(0, i as int));
            assert(p.last() == b);
        }
        i = i + 1;
    }
    assert(bytes@.subrange(0, bytes@.len() as int) =~= bytes@);
    out
}

fn digit_value(c: char) -> (r: u8)
    requires
        is_ascii_hex_digit(c),
    ensures
        r as int == hex_value(c),
        r < 16,
{
    if '0' <= c && c <= '9' {
        ((c as u32) - ('0' as u32)) as u8
    } else if 'a' <= c && c <= 'f' {
        ((c as u32) - ('a' as u32) + 10) as u8
    } else {
        ((c as u32) - ('A' as u32) + 10) as u8
    }
}

/// The bytes that `value` spells in hexadecimal, or `None` when it is not an
/// even number of hexadecimal digits.
pub fn decode_hex(value: &str) -> (r: Option<Vec<u8>>)
    ensures
        match hex_decode(value@) {
            Some(b) => r matches Some(v) && v@ == b,
            None => r is None,
        },
{
    let v = chars_of(value);
    if v.len() % 2 != 0 || !all_hex_digits(&v) {
        return None;
    }
    let len = v.len();
    let n = len / 2;
    let mut out: Vec<u8> = Vec::new();
    let mut i: usize = 0;
    while i < n
        invariant
            n == v@.len() / 2,
            v@.len() % 2 == 0,
            v@.len() == 2 * n,
            len == v@.len(),
            v@ == value@,
            all_ascii_hex(v@),
            i <= n,
            out@.len() == i,
            forall|k: int|
                0 <= k < i ==> #[trigger] out@[k] == (hex_value(v@[2 * k]) * 16 + hex_value(
                    v@[2 * k + 1],
                )) as u8,
        decreases n - i,
    {
        let hi = digit_value(v[2 * i]);
        let lo = digit_value(v[2 * i + 1]);
        out.push(hi * 16 + lo);
        i = i + 1;
    }
    let ghost want = hex_decode(value@).unwrap();
    assert(out@ =~= want);
    Some(out)
}

/// Decimal digits of `n`, most significant first, without leading zeros.
pub open spec fn decimal_text(n: nat) -> Seq<char>
    decreases n,
{
    if n < 10 {
        seq![hex_alphabet()[n as int]]
    } else {
        decimal_text(n / 10) + seq![hex_alphabet()[(n % 10) as int]]
    }
}

/// The decimal text of `n`.
pub fn decimal(n: u128) -> (r: String)
    ensures
        r@ == decimal_text(n as nat),
    decreases n,
{
    if n < 10 {
        String::from_str(digit_str(n as u8))
    } else {
        let mut s = decimal(n / 10);
        s.append(digit_str((n % 10) as u8));
        s
    }
}

} // verus!

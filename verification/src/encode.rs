use vstd::prelude::*;

use vstd::utf8::{char_is_scalar, encode_scalar};

verus! {

/// A character the query encoding passes through untouched: an ASCII
/// letter or digit, or one of the four unreserved marks `-` `.` `_` `~`.
pub open spec fn is_unreserved(c: char) -> bool {
    let n = c as u32;
    ||| 0x30 <= n <= 0x39
    ||| 0x41 <= n <= 0x5A
    ||| 0x61 <= n <= 0x7A
    ||| n == 0x2D
    ||| n == 0x2E
    ||| n == 0x5F
    ||| n == 0x7E
}

/// The uppercase hex digit for a value below sixteen.
pub open spec fn hex_digit_char(d: int) -> char {
    if d < 10 {
        crate::decimal::digit_char(d)
    } else if d == 10 {
        'A'
    } else if d == 11 {
        'B'
    } else if d == 12 {
        'C'
    } else if d == 13 {
        'D'
    } else if d == 14 {
        'E'
    } else {
        'F'
    }
}

/// The percent-encoding of one byte: `%` and two uppercase hex digits.
pub open spec fn pct_encoded(b: u8) -> Seq<char> {
    seq!['%', hex_digit_char((b / 16) as int), hex_digit_char((b % 16) as int)]
}

/// The percent-encoding of a byte sequence, byte by byte.
pub open spec fn pct_bytes(bs: Seq<u8>) -> Seq<char>
    decreases bs.len(),
{
    if bs.len() == 0 {
        Seq::empty()
    } else {
        pct_encoded(bs[0]) + pct_bytes(bs.drop_first())
    }
}

/// The encoding of one character of the query value: an unreserved
/// character stands as it is; every other character becomes the
/// percent-encoding of its UTF-8 bytes.
pub open spec fn encode_char(c: char) -> Seq<char> {
    if is_unreserved(c) {
        seq![c]
    } else {
        pct_bytes(encode_scalar(c as u32))
    }
}

/// The URL-encoding of a string, character by character.
pub open spec fn url_encode(s: Seq<char>) -> Seq<char>
    decreases s.len(),
{
    if s.len() == 0 {
        Seq::empty()
    } else {
        encode_char(s[0]) + url_encode(s.drop_first())
    }
}

proof fn lemma_pct_bytes_snoc(bs: Seq<u8>, b: u8)
    ensures
        pct_bytes(bs.push(b)) == pct_bytes(bs) + pct_encoded(b),
    decreases bs.len(),
{
    let p = bs.push(b);
    if bs.len() == 0 {
        assert(p[0] == b);
        assert(p.drop_first() =~= Seq::<u8>::empty());
        assert(pct_bytes(Seq::<u8>::empty()) =~= Seq::<char>::empty());
        assert(pct_bytes(p) =~= pct_bytes(bs) + pct_encoded(b));
    } else {
        assert(p[0] == bs[0]);
        assert(p.drop_first() =~= bs.drop_first().push(b));
        lemma_pct_bytes_snoc(bs.drop_first(), b);
        assert(pct_bytes(p) =~= pct_bytes(bs) + pct_encoded(b));
    }
}

proof fn lemma_url_encode_snoc(s: Seq<char>, c: char)
    ensures
        url_encode(s.push(c)) == url_encode(s) + encode_char(c),
    decreases s.len(),
{
    let p = s.push(c);
    if s.len() == 0 {
        assert(p[0] == c);
        assert(p.drop_first() =~= Seq::<char>::empty());
        assert(url_encode(Seq::<char>::empty()) =~= Seq::<char>::empty());
        assert(url_encode(p) =~= url_encode(s) + encode_char(c));
    } else {
        assert(p[0] == s[0]);
        assert(p.drop_first() =~= s.drop_first().push(c));
        lemma_url_encode_snoc(s.drop_first(), c);
        assert(url_encode(p) =~= url_encode(s) + encode_char(c));
    }
}

/// The one-character string for an uppercase hex digit.
fn hex_str(d: u8) -> (r: &'static str)
    requires
        d < 16,
    ensures
        r@ == seq![hex_digit_char(d as int)],
{
    let r: &'static str = match d {
        0 => "0",
        1 => "1",
        2 => "2",
        3 => "3",
        4 => "4",
        5 => "5",
        6 => "6",
        7 => "7",
        8 => "8",
        9 => "9",
        10 => "A",
        11 => "B",
        12 => "C",
        13 => "D",
        14 => "E",
        _ => "F",
    };
    proof {
        reveal_strlit("0");
        reveal_strlit("1");
        reveal_strlit("2");
        reveal_strlit("3");
        reveal_strlit("4");
        reveal_strlit("5");
        reveal_strlit("6");
        reveal_strlit("7");
        reveal_strlit("8");
        reveal_strlit("9");
        reveal_strlit("A");
        reveal_strlit("B");
        reveal_strlit("C");
        reveal_strlit("D");
        reveal_strlit("E");
        reveal_strlit("F");
        assert(r@ =~= seq![hex_digit_char(d as int)]);
    }
    r
}

/// Appends the percent-encoding of one byte.
fn append_pct(r: &mut String, b: u8)
    ensures
        final(r)@ == old(r)@ + pct_encoded(b),
{
    r.append("%");
    r.append(hex_str(b / 16));
    r.append(hex_str(b % 16));
    proof {
        reveal_strlit("%");
        assert("%"@ =~= seq!['%']);
        assert(r@ =~= old(r)@ + pct_encoded(b));
    }
}

/// Whether the encoding passes `c` through untouched.
fn char_unreserved(c: char) -> (r: bool)
    ensures
        r == is_unreserved(c),
{
    let n: u32 = c as u32;
    (0x30 <= n && n <= 0x39) || (0x41 <= n && n <= 0x5A) || (0x61 <= n && n <= 0x7A) || n == 0x2D
        || n == 0x2E || n == 0x5F || n == 0x7E
}

/// URL-encodes a string for use as a query parameter value.
pub fn url_encode_str(s: &str) -> (r: String)
    ensures
        r@ == url_encode(s@),
{
    let mut r = String::new();
    let n = s.unicode_len();
    let mut i: usize = 0;
    while i < n
        invariant
            n == s@.len(),
            i <= n,
            r@ == url_encode(s@.take(i as int)),
        decreases n - i,
    {
        let c = s.get_char(i);
        if char_unreserved(c) {
            let piece = s.substring_char(i, i + 1);
            r.append(piece);
            proof {
                assert(piece@ =~= seq![c]);
            }
        } else {
            let ghost r_before = r@;
            let code: u32 = c as u32;
            proof {
                char_is_scalar(c);
            }
            let mut bs: Vec<u8> = Vec::new();
            if code <= 0x7F {
                bs.push((code & 0x7F) as u8);
            } else if code <= 0x7FF {
                bs.push(0xC0 | ((code >> 6) & 0x1F) as u8);
                bs.push(0x80 | (code & 0x3F) as u8);
            } else if code <= 0xFFFF {
                bs.push(0xE0 | ((code >> 12) & 0x0F) as u8);
                bs.push(0x80 | ((code >> 6) & 0x3F) as u8);
                bs.push(0x80 | (code & 0x3F) as u8);
            } else {
                bs.push(0xF0 | ((code >> 18) & 0x7) as u8);
                bs.push(0x80 | ((code >> 12) & 0x3F) as u8);
                bs.push(0x80 | ((code >> 6) & 0x3F) as u8);
                bs.push(0x80 | (code & 0x3F) as u8);
            }
            proof {
                assert(bs@ =~= encode_scalar(code));
            }
            let m = bs.len();
            let mut k: usize = 0;
            while k < m
                invariant
                    m == bs@.len(),
                    k <= m,
                    bs@ == encode_scalar(code),
                    r@ == r_before + pct_bytes(bs@.take(k as int)),
                decreases m - k,
            {
                append_pct(&mut r, bs[k]);
                proof {
                    assert(bs@.take(k as int + 1) =~= bs@.take(k as int).push(bs@[k as int]));
                    lemma_pct_bytes_snoc(bs@.take(k as int), bs@[k as int]);
                    assert(r@ =~= r_before + pct_bytes(bs@.take(k as int + 1)));
                }
                k = k + 1;
            }
            proof {
                assert(bs@.take(m as int) =~= bs@);
                assert(r@ =~= r_before + encode_char(c));
            }
        }
        proof {
            assert(s@.take(i as int + 1) =~= s@.take(i as int).push(s@[i as int]));
            lemma_url_encode_snoc(s@.take(i as int), s@[i as int]);
            assert(r@ =~= url_encode(s@.take(i as int + 1)));
        }
        i = i + 1;
    }
    proof {
        assert(s@.take(n as int) =~= s@);
    }
    r
}

} // verus!

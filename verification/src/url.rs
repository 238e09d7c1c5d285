//! Percent-encoding of a query parameter's value.
use vstd::prelude::*;
use vstd::string::StringSliceAdditionalSpecFns;
use vstd::utf8::{decode_utf8, encode_utf8};

verus! {

/// The characters a URL leaves as they are in a query value: ASCII letters,
/// digits, `-`, `.`, `_` and `~`.
pub open spec fn is_unreserved(c: char) -> bool {
    ||| 'A' <= c && c <= 'Z'
    ||| 'a' <= c && c <= 'z'
    ||| '0' <= c && c <= '9'
    ||| c == '-'
    ||| c == '.'
    ||| c == '_'
    ||| c == '~'
}

/// The uppercase hexadecimal digit for `d` in `0..16`.
pub open spec fn hex_upper_digit(d: int) -> char {
    if d < 10 {
        (48 + d) as char
    } else {
        (55 + d) as char
    }
}

/// Each byte written as `%` and two uppercase hex digits.
pub open spec fn percent_bytes(b: Seq<u8>) -> Seq<char>
    decreases b.len(),
{
    if b.len() == 0 {
        seq![]
    } else {
        percent_bytes(b.drop_last()) + seq![
            '%',
            hex_upper_digit(b.last() as int / 16),
            hex_upper_digit(b.last() as int % 16),
        ]
    }
}

/// A character as it stands in a query value: itself where unreserved, else
/// its UTF-8 bytes percent-encoded.
pub open spec fn percent_char(c: char) -> Seq<char> {
    if is_unreserved(c) {
        seq![c]
    } else {
        percent_bytes(encode_utf8(seq![c]))
    }
}

/// A text as it stands in a query value, character by character.
pub open spec fn percent_encode(s: Seq<char>) -> Seq<char>
    decreases s.len(),
{
    if s.len() == 0 {
        seq![]
    } else {
        percent_encode(s.drop_last()) + percent_char(s.last())
    }
}

/// Percent-encoded bytes hold only `%` and hex digits.
proof fn lemma_percent_bytes_safe(b: Seq<u8>)
    ensures
        forall|j: int|
            0 <= j < percent_bytes(b).len() ==> is_unreserved(#[trigger] percent_bytes(b)[j])
                || percent_bytes(b)[j] == '%',
    decreases b.len(),
{
    if b.len() > 0 {
        lemma_percent_bytes_safe(b.drop_last());
        let p = percent_bytes(b.drop_last());
        let x = b.last() as int;
        assert(0 <= x / 16 < 16 && 0 <= x % 16 < 16);
        assert forall|j: int| 0 <= j < percent_bytes(b).len() implies is_unreserved(
            #[trigger] percent_bytes(b)[j],
        ) || percent_bytes(b)[j] == '%' by {
            if j >= p.len() {
            } else {
                assert(percent_bytes(b)[j] == p[j]);
            }
        }
    }
}

/// An encoded value holds only unreserved characters and `%`, so it can
/// neither end the query value (`&`, `#`) nor be read as another (`=`, `+`).
pub proof fn lemma_percent_encode_safe(s: Seq<char>)
    ensures
        forall|j: int|
            0 <= j < percent_encode(s).len() ==> is_unreserved(#[trigger] percent_encode(s)[j])
                || percent_encode(s)[j] == '%',
    decreases s.len(),
{
    if s.len() > 0 {
        lemma_percent_encode_safe(s.drop_last());
        lemma_percent_bytes_safe(encode_utf8(seq![s.last()]));
        let p = percent_encode(s.drop_last());
        let q = percent_char(s.last());
        assert forall|j: int| 0 <= j < percent_encode(s).len() implies is_unreserved(
            #[trigger] percent_encode(s)[j],
        ) || percent_encode(s)[j] == '%' by {
            if j >= p.len() {
                assert(percent_encode(s)[j] == q[j - p.len()]);
            } else {
                assert(percent_encode(s)[j] == p[j]);
            }
        }
    }
}

/// Whether `c` is a hexadecimal digit, in either case.
pub open spec fn is_hex_digit(c: char) -> bool {
    ||| '0' <= c && c <= '9'
    ||| 'A' <= c && c <= 'F'
    ||| 'a' <= c && c <= 'f'
}

/// The value of the hexadecimal digit `c`.
pub open spec fn hex_value(c: char) -> int {
    if '0' <= c && c <= '9' {
        c as int - 48
    } else if 'A' <= c && c <= 'F' {
        c as int - 55
    } else {
        c as int - 87
    }
}

/// The bytes a query value stands for, read from the left: `%` followed by
/// two hex digits stands for one byte, any other character for its own UTF-8
/// bytes.
pub open spec fn percent_decode_bytes(s: Seq<char>) -> Seq<u8>
    decreases s.len(),
{
    if s.len() == 0 {
        seq![]
    } else if s.len() >= 3 && s[0] == '%' && is_hex_digit(s[1]) && is_hex_digit(s[2]) {
        seq![(hex_value(s[1]) * 16 + hex_value(s[2])) as u8] + percent_decode_bytes(s.skip(3))
    } else {
        encode_utf8(seq![s[0]]) + percent_decode_bytes(s.skip(1))
    }
}

/// The text a query value stands for: its bytes read as UTF-8.
pub open spec fn percent_decode(s: Seq<char>) -> Seq<char> {
    decode_utf8(percent_decode_bytes(s))
}

proof fn lemma_hex_digit_value(d: int)
    requires
        0 <= d < 16,
    ensures
        is_hex_digit(hex_upper_digit(d)),
        hex_value(hex_upper_digit(d)) == d,
        hex_upper_digit(d) != '%',
{
}

proof fn lemma_percent_bytes_cons(x: u8, rest: Seq<u8>)
    ensures
        percent_bytes(seq![x] + rest) == seq![
            '%',
            hex_upper_digit(x as int / 16),
            hex_upper_digit(x as int % 16),
        ] + percent_bytes(rest),
    decreases rest.len(),
{
    let s = seq![x] + rest;
    if rest.len() == 0 {
        assert(s.drop_last() =~= Seq::<u8>::empty());
        assert(rest =~= Seq::<u8>::empty());
    } else {
        assert(s.drop_last() =~= seq![x] + rest.drop_last());
        assert(s.last() == rest.last());
        lemma_percent_bytes_cons(x, rest.drop_last());
    }
}

proof fn lemma_percent_encode_cons(c: char, rest: Seq<char>)
    ensures
        percent_encode(seq![c] + rest) == percent_char(c) + percent_encode(rest),
    decreases rest.len(),
{
    let s = seq![c] + rest;
    if rest.len() == 0 {
        assert(s.drop_last() =~= Seq::<char>::empty());
        assert(rest =~= Seq::<char>::empty());
    } else {
        assert(s.drop_last() =~= seq![c] + rest.drop_last());
        assert(s.last() == rest.last());
        lemma_percent_encode_cons(c, rest.drop_last());
    }
}

proof fn lemma_decode_percent_bytes(b: Seq<u8>, x: Seq<char>)
    ensures
        percent_decode_bytes(percent_bytes(b) + x) == b + percent_decode_bytes(x),
    decreases b.len(),
{
    if b.len() == 0 {
        assert(percent_bytes(b) + x =~= x);
        assert(b + percent_decode_bytes(x) =~= percent_decode_bytes(x));
    } else {
        let b0 = b[0];
        let bd = b.drop_first();
        assert(b =~= seq![b0] + bd);
        lemma_percent_bytes_cons(b0, bd);
        let hi = b0 as int / 16;
        let lo = b0 as int % 16;
        lemma_hex_digit_value(hi);
        lemma_hex_digit_value(lo);
        let t = seq!['%', hex_upper_digit(hi), hex_upper_digit(lo)];
        let s = percent_bytes(b) + x;
        assert(s =~= t + (percent_bytes(bd) + x));
        assert(s[0] == '%' && s[1] == hex_upper_digit(hi) && s[2] == hex_upper_digit(lo));
        assert(s.skip(3) =~= percent_bytes(bd) + x);
        assert(hi * 16 + lo == b0 as int);
        lemma_decode_percent_bytes(bd, x);
        assert(percent_decode_bytes(s) =~= seq![b0] + (bd + percent_decode_bytes(x)));
        assert(b + percent_decode_bytes(x) =~= seq![b0] + (bd + percent_decode_bytes(x)));
    }
}

proof fn lemma_decode_percent_char(c: char, x: Seq<char>)
    ensures
        percent_decode_bytes(percent_char(c) + x) == encode_utf8(seq![c]) + percent_decode_bytes(x),
{
    if is_unreserved(c) {
        let s = seq![c] + x;
        assert(s[0] == c);
        assert(s.skip(1) =~= x);
    } else {
        lemma_decode_percent_bytes(encode_utf8(seq![c]), x);
    }
}

proof fn lemma_decode_encode_bytes(m: Seq<char>)
    ensures
        percent_decode_bytes(percent_encode(m)) == encode_utf8(m),
    decreases m.len(),
{
    if m.len() == 0 {
        assert(encode_utf8(m) =~= Seq::<u8>::empty());
    } else {
        let m0 = m[0];
        let md = m.drop_first();
        assert(m =~= seq![m0] + md);
        lemma_percent_encode_cons(m0, md);
        lemma_decode_percent_char(m0, percent_encode(md));
        lemma_decode_encode_bytes(md);
        let one = seq![m0];
        assert(one.drop_first() =~= Seq::<char>::empty());
        assert(encode_utf8(one.drop_first()) =~= Seq::<u8>::empty());
        assert(encode_utf8(one) == vstd::utf8::encode_scalar(one[0] as u32) + encode_utf8(
            one.drop_first(),
        ));
        assert(encode_utf8(one) =~= vstd::utf8::encode_scalar(m0 as u32));
        assert(encode_utf8(m) == vstd::utf8::encode_scalar(m0 as u32) + encode_utf8(md));
    }
}

/// Percent-decoding an encoded text gives the text back, whatever it holds.
pub proof fn lemma_percent_decode_encode(m: Seq<char>)
    ensures
        percent_decode(percent_encode(m)) == m,
{
    lemma_decode_encode_bytes(m);
    vstd::utf8::encode_utf8_decode_utf8(m);
}

/// Whether `c` is left as it is in a query value.
fn is_unreserved_char(c: char) -> (r: bool)
    ensures
        r == is_unreserved(c),
{
    ('A' <= c && c <= 'Z') || ('a' <= c && c <= 'z') || ('0' <= c && c <= '9') || c == '-' || c
        == '.' || c == '_' || c == '~'
}

/// The one-character string holding the uppercase hex digit `d`.
fn hex_upper_str(d: u8) -> (r: &'static str)
    requires
        d < 16,
    ensures
        r@ == seq![hex_upper_digit(d as int)],
{
    let digits = "0123456789ABCDEF";
    proof {
        reveal_strlit("0123456789ABCDEF");
    }
    let r = digits.substring_char(d as usize, (d + 1) as usize);
    assert(r@ =~= seq![hex_upper_digit(d as int)]);
    r
}

/// Each byte of `b` written as `%` and two uppercase hex digits.
fn percent_encode_bytes(b: &[u8]) -> (r: String)
    ensures
        r@ == percent_bytes(b@),
{
    let mut out = String::new();
    let mut i: usize = 0;
    proof {
        reveal_strlit("%");
        assert(b@.take(0) =~= Seq::<u8>::empty());
    }
    while i < b.len()
        invariant
            i <= b.len(),
            out@ == percent_bytes(b@.take(i as int)),
        decreases b.len() - i,
    {
        let x = b[i];
        out.append("%");
        out.append(hex_upper_str(x / 16));
        out.append(hex_upper_str(x % 16));
        proof {
            reveal_strlit("%");
            let t = b@.take(i + 1);
            assert(t.drop_last() =~= b@.take(i as int));
            assert(t.last() == x);
            assert(x as int / 16 == (x / 16) as int);
            assert(x as int % 16 == (x % 16) as int);
            assert(out@ =~= percent_bytes(t.drop_last()) + seq![
                '%',
                hex_upper_digit(t.last() as int / 16),
                hex_upper_digit(t.last() as int % 16),
            ]);
        }
        i = i + 1;
    }
    assert(b@.take(b.len() as int) =~= b@);
    out
}

/// `s` percent-encoded for use as a query value: unreserved characters kept,
/// every other character's UTF-8 bytes written as `%XX`.
pub fn percent_encode_text(s: &str) -> (r: String)
    ensures
        r@ == percent_encode(s@),
{
    let n = s.unicode_len();
    let mut out = String::new();
    let mut i: usize = 0;
    assert(s@.take(0) =~= Seq::<char>::empty());
    while i < n
        invariant
            n == s@.len(),
            i <= n,
            out@ == percent_encode(s@.take(i as int)),
        decreases n - i,
    {
        let c = s.get_char(i);
        let piece = s.substring_char(i, i + 1);
        assert(piece@ =~= seq![c]);
        if is_unreserved_char(c) {
            out.append(piece);
        } else {
            let encoded = percent_encode_bytes(piece.as_bytes());
            out.append(encoded.as_str());
        }
        proof {
            assert(s@.take(i + 1).drop_last() =~= s@.take(i as int));
            assert(s@.take(i + 1).last() == c);
        }
        i = i + 1;
    }
    assert(s@.take(n as int) =~= s@);
    out
}

} // verus!

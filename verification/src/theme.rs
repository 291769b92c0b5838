//! Theme colours: parsing the `#RRGGBB` / `#RRGGBBAA` strings of the
//! configuration into 8-bit channels.

use vstd::prelude::*;

use crate::dedup::{hex_digit, hex_lower, is_ascii_hexdigit};
use crate::text::chars_of;

verus! {

/// A colour as four 8-bit channels; alpha 255 is opaque.
#[derive(Debug, Clone, Copy, PartialEq, Eq, Structural)]
pub struct Rgba8 {
    pub r: u8,
    pub g: u8,
    pub b: u8,
    pub a: u8,
}

/// The characters of a colour string after its leading `#` characters.
pub open spec fn color_digits(s: Seq<char>) -> Seq<char>
    decreases s.len(),
{
    if s.len() > 0 && s[0] == '#' {
        color_digits(s.drop_first())
    } else {
        s
    }
}

/// The value of a hexadecimal digit (`0-9`, `a-f`, `A-F`).
pub open spec fn hex_digit_value(c: char) -> Option<u8> {
    if '0' <= c <= '9' {
        Some((c as u32 - '0' as u32) as u8)
    } else if 'a' <= c <= 'f' {
        Some((c as u32 - 'a' as u32 + 10) as u8)
    } else if 'A' <= c <= 'F' {
        Some((c as u32 - 'A' as u32 + 10) as u8)
    } else {
        None
    }
}

/// True when every character is a hexadecimal digit.
pub open spec fn all_hex_digits(t: Seq<char>) -> bool {
    forall|i: int| 0 <= i < t.len() ==> (#[trigger] hex_digit_value(t[i])) is Some
}

/// The byte written by the two hex digits at `i` and `i + 1`.
pub open spec fn pair_value(t: Seq<char>, i: int) -> u8 {
    (16 * hex_digit_value(t[i])->0 + hex_digit_value(t[i + 1])->0) as u8
}

/// Magenta, the colour of strings that are not colours.
pub open spec fn invalid_color() -> Rgba8 {
    Rgba8 { r: 0xFF, g: 0x00, b: 0xFF, a: 0xFF }
}

/// The colour a string denotes: six hex digits are opaque RGB, eight are
/// RGBA; anything else gives magenta.
pub open spec fn color_of(s: Seq<char>) -> Rgba8 {
    let t = color_digits(s);
    if t.len() == 6 && all_hex_digits(t) {
        Rgba8 { r: pair_value(t, 0), g: pair_value(t, 2), b: pair_value(t, 4), a: 0xFF }
    } else if t.len() == 8 && all_hex_digits(t) {
        Rgba8 { r: pair_value(t, 0), g: pair_value(t, 2), b: pair_value(t, 4), a: pair_value(t, 6) }
    } else {
        invalid_color()
    }
}

fn digit_value(c: char) -> (r: Option<u8>)
    ensures
        r == hex_digit_value(c),
{
    if '0' <= c && c <= '9' {
        Some((c as u32 - '0' as u32) as u8)
    } else if 'a' <= c && c <= 'f' {
        Some((c as u32 - 'a' as u32 + 10) as u8)
    } else if 'A' <= c && c <= 'F' {
        Some((c as u32 - 'A' as u32 + 10) as u8)
    } else {
        None
    }
}

/// The digit values of `t[start..]`, or `None` when one is not a hex digit.
fn digit_values(t: &Vec<char>, start: usize) -> (r: Option<Vec<u8>>)
    requires
        start <= t@.len(),
    ensures
        match r {
            Some(v) => {
                &&& all_hex_digits(t@.skip(start as int))
                &&& v@.len() == t@.len() - start
                &&& forall|i: int|
                    0 <= i < v@.len() ==> Some(#[trigger] v@[i]) == hex_digit_value(t@[start + i])
            },
            None => !all_hex_digits(t@.skip(start as int)),
        },
{
    let mut v: Vec<u8> = Vec::new();
    let mut i: usize = start;
    while i < t.len()
        invariant
            start <= i <= t@.len(),
            v@.len() == i - start,
            forall|k: int| 0 <= k < v@.len() ==> Some(#[trigger] v@[k]) == hex_digit_value(t@[start + k]),
        decreases t@.len() - i,
    {
        match digit_value(t[i]) {
            Some(d) => v.push(d),
            None => {
                assert(t@.skip(start as int)[i - start] == t@[i as int]);
                return None;
            },
        }
        i = i + 1;
    }
    assert forall|k: int| 0 <= k < t@.skip(start as int).len() implies (#[trigger] hex_digit_value(
        t@.skip(start as int)[k],
    )) is Some by {
        assert(Some(v@[k]) == hex_digit_value(t@[start + k]));
    }
    Some(v)
}

/// Parse a CSS-style hex colour string: `#RRGGBB` is opaque, `#RRGGBBAA`
/// carries alpha, and anything else (a wrong length, or a character that
/// is not a hex digit) gives magenta so bad colours are obvious. Leading `#`
/// characters are ignored.
pub fn hex_to_color(hex: &str) -> (r: Rgba8)
    ensures
        r == color_of(hex@),
{
    let cs = chars_of(hex);
    let mut k: usize = 0;
    assert(cs@.skip(0) =~= cs@);
    while k < cs.len() && cs[k] == '#'
        invariant
            k <= cs@.len(),
            color_digits(cs@) == color_digits(cs@.skip(k as int)),
        decreases cs@.len() - k,
    {
        assert(cs@.skip(k as int).drop_first() =~= cs@.skip(k + 1));
        k = k + 1;
    }
    let ghost t = cs@.skip(k as int);
    assert(color_digits(t) == t);
    let n = cs.len() - k;
    if n != 6 && n != 8 {
        return Rgba8 { r: 0xFF, g: 0x00, b: 0xFF, a: 0xFF };
    }
    match digit_values(&cs, k) {
        None => Rgba8 { r: 0xFF, g: 0x00, b: 0xFF, a: 0xFF },
        Some(v) => {
            assert forall|i: int| 0 <= i < v@.len() implies Some(#[trigger] v@[i]) == hex_digit_value(t[i]) by {
                assert(t[i] == cs@[k + i]);
            }
            assert(v@[0] < 16 && v@[1] < 16 && v@[2] < 16 && v@[3] < 16 && v@[4] < 16 && v@[5] < 16);
            let r = 16 * v[0] + v[1];
            let g = 16 * v[2] + v[3];
            let b = 16 * v[4] + v[5];
            if n == 6 {
                Rgba8 { r, g, b, a: 0xFF }
            } else {
                assert(v@[6] < 16 && v@[7] < 16);
                Rgba8 { r, g, b, a: 16 * v[6] + v[7] }
            }
        },
    }
}

/// Any string that is not six or eight hex digits is magenta; a six-digit
/// colour is opaque.
pub proof fn lemma_color_shapes(s: Seq<char>)
    ensures
        !((color_digits(s).len() == 6 || color_digits(s).len() == 8) && all_hex_digits(
            color_digits(s),
        )) ==> color_of(s) == invalid_color(),
        color_digits(s).len() == 6 ==> color_of(s).a == 0xFF,
{
}

/// Leading `#` characters are ignored: a colour written with one more `#`
/// in front is the same colour.
pub proof fn lemma_leading_hash_ignored(s: Seq<char>)
    ensures
        color_of(seq!['#'] + s) == color_of(s),
{
    let u = seq!['#'] + s;
    assert(u.drop_first() =~= s);
    assert(color_digits(u) == color_digits(s));
}

/// The upper-case letter of a lower-case ASCII letter.
pub open spec fn ascii_upper(c: char) -> char {
    ((c as u32 - 32) as u8) as char
}

/// Hex digits are read without regard to case: each of `a-f` and its
/// upper-case letter are digits with the same value.
pub proof fn lemma_hex_digits_ignore_case(c: char)
    requires
        'a' <= c <= 'f',
    ensures
        hex_digit_value(c) is Some,
        hex_digit_value(ascii_upper(c)) == hex_digit_value(c),
{
}

/// The hex digits are exactly the characters `0-9`, `a-f`, `A-F`, and each
/// is read as the value below 16 that the lower-case encoder writes as it,
/// or as its upper-case letter.
pub proof fn lemma_hex_digit_values(c: char)
    ensures
        (hex_digit_value(c) is Some) == is_ascii_hexdigit(c),
        hex_digit_value(c) is Some ==> {
            let v = hex_digit_value(c)->0;
            &&& v < 16
            &&& c == hex_digit(v) || c == ascii_upper(hex_digit(v))
        },
{
}

/// Reading back a digit written by the lower-case hex encoder gives its
/// value: every value below 16 has a digit, and the digits mean their value.
pub proof fn lemma_hex_digit_round_trip(v: u8)
    requires
        v < 16,
    ensures
        hex_digit_value(hex_digit(v)) == Some(v),
{
}

/// Six hex digits are the three channels, high digit first: writing the
/// channels in hex and parsing the colour gives them back, opaque; eight
/// digits give the alpha channel too.
pub proof fn lemma_color_round_trip(r: u8, g: u8, b: u8, a: u8)
    ensures
        color_of(seq!['#'] + hex_lower(seq![r, g, b])) == (Rgba8 { r, g, b, a: 0xFF }),
        color_of(seq!['#'] + hex_lower(seq![r, g, b, a])) == (Rgba8 { r, g, b, a }),
        color_of(hex_lower(seq![r, g, b])) == (Rgba8 { r, g, b, a: 0xFF }),
{
    lemma_hex_pair(r);
    lemma_hex_pair(g);
    lemma_hex_pair(b);
    lemma_hex_pair(a);
    let t3 = hex_lower(seq![r, g, b]);
    let t4 = hex_lower(seq![r, g, b, a]);
    lemma_hex_lower_3(r, g, b);
    lemma_hex_lower_4(r, g, b, a);
    lemma_digits_after_hash(t3);
    lemma_digits_after_hash(t4);
    assert(all_hex_digits(t3));
    assert(all_hex_digits(t4));
}

/// The character with `a-f` written upper-case, and every other left alone.
pub open spec fn upper_hex_letter(c: char) -> char {
    if 'a' <= c <= 'f' {
        ascii_upper(c)
    } else {
        c
    }
}

/// Upper-case digits are read as their lower-case ones: the channels written
/// as `#RRGGBB` with upper-case letters parse back to the same opaque colour,
/// and `#RRGGBBAA` to the same colour with its alpha.
pub proof fn lemma_color_round_trip_upper(r: u8, g: u8, b: u8, a: u8)
    ensures
        color_of(seq!['#'] + hex_lower(seq![r, g, b]).map_values(|c: char| upper_hex_letter(c)))
            == (Rgba8 { r, g, b, a: 0xFF }),
        color_of(seq!['#'] + hex_lower(seq![r, g, b, a]).map_values(|c: char| upper_hex_letter(c)))
            == (Rgba8 { r, g, b, a }),
{
    lemma_color_round_trip(r, g, b, a);
    let t3 = hex_lower(seq![r, g, b]);
    let t4 = hex_lower(seq![r, g, b, a]);
    lemma_hex_lower_digits(seq![r, g, b]);
    lemma_hex_lower_digits(seq![r, g, b, a]);
    lemma_digits_after_hash(t3);
    lemma_digits_after_hash(t4);
    lemma_upper_keeps_digits(t3);
    lemma_upper_keeps_digits(t4);
}

proof fn lemma_hex_lower_digits(bytes: Seq<u8>)
    requires
        bytes.len() > 0,
    ensures
        hex_lower(bytes).len() == 2 * bytes.len(),
        all_hex_digits(hex_lower(bytes)),
        hex_lower(bytes)[0] != '#',
    decreases bytes.len(),
{
    let last = bytes.last();
    lemma_hex_pair(last);
    let prev = hex_lower(bytes.drop_last());
    if bytes.len() > 1 {
        lemma_hex_lower_digits(bytes.drop_last());
    } else {
        assert(prev =~= Seq::<char>::empty());
    }
    let t = hex_lower(bytes);
    assert(t == prev.push(hex_digit(last >> 4)).push(hex_digit(last & 0x0f)));
    assert forall|i: int| 0 <= i < t.len() implies (#[trigger] hex_digit_value(t[i])) is Some by {
        if i < prev.len() {
            assert(t[i] == prev[i]);
        }
    }
}

#[verifier::rlimit(30)]
proof fn lemma_upper_keeps_digits(t: Seq<char>)
    requires
        t.len() == 6 || t.len() == 8,
        color_digits(seq!['#'] + t) == t,
        all_hex_digits(t),
    ensures
        color_of(seq!['#'] + t.map_values(|c: char| upper_hex_letter(c))) == color_of(seq!['#'] + t),
{
    let u = t.map_values(|c: char| upper_hex_letter(c));
    assert forall|i: int| 0 <= i < u.len() implies #[trigger] hex_digit_value(u[i]) == hex_digit_value(t[i]) by {
        assert(u[i] == upper_hex_letter(t[i]));
    }
    assert(hex_digit_value(u[0]) is Some);
    assert(u[0] != '#');
    lemma_digits_after_hash(u);
    assert(all_hex_digits(u)) by {
        assert forall|i: int| 0 <= i < u.len() implies (#[trigger] hex_digit_value(u[i])) is Some by {
            assert(hex_digit_value(u[i]) == hex_digit_value(t[i]));
        }
    }
    assert(hex_digit_value(u[0]) == hex_digit_value(t[0]));
    assert(hex_digit_value(u[1]) == hex_digit_value(t[1]));
    assert(hex_digit_value(u[2]) == hex_digit_value(t[2]));
    assert(hex_digit_value(u[3]) == hex_digit_value(t[3]));
    assert(hex_digit_value(u[4]) == hex_digit_value(t[4]));
    assert(hex_digit_value(u[5]) == hex_digit_value(t[5]));
    if t.len() == 8 {
        assert(hex_digit_value(u[6]) == hex_digit_value(t[6]));
        assert(hex_digit_value(u[7]) == hex_digit_value(t[7]));
    }
}

proof fn lemma_hex_pair(v: u8)
    ensures
        hex_digit_value(hex_digit(v >> 4)) == Some(v >> 4),
        hex_digit_value(hex_digit(v & 0x0f)) == Some(v & 0x0f),
        hex_digit(v >> 4) != '#',
        hex_digit(v & 0x0f) != '#',
        16 * (v >> 4) + (v & 0x0f) == v,
{
    assert(v >> 4 < 16 && v & 0x0f < 16 && 16 * (v >> 4) + (v & 0x0f) == v) by (bit_vector);
    lemma_hex_digit_round_trip(v >> 4);
    lemma_hex_digit_round_trip(v & 0x0f);
}

proof fn lemma_hex_lower_3(r: u8, g: u8, b: u8)
    ensures
        hex_lower(seq![r, g, b]) == seq![
            hex_digit(r >> 4),
            hex_digit(r & 0x0f),
            hex_digit(g >> 4),
            hex_digit(g & 0x0f),
            hex_digit(b >> 4),
            hex_digit(b & 0x0f),
        ],
{
    let s = seq![r, g, b];
    assert(seq![r].drop_last() =~= Seq::<u8>::empty());
    assert(hex_lower(Seq::<u8>::empty()) =~= Seq::<char>::empty());
    assert(hex_lower(seq![r]) =~= seq![hex_digit(r >> 4), hex_digit(r & 0x0f)]);
    assert(seq![r, g].drop_last() =~= seq![r]);
    assert(hex_lower(seq![r, g]) =~= seq![
        hex_digit(r >> 4), hex_digit(r & 0x0f),
        hex_digit(g >> 4), hex_digit(g & 0x0f)]);
    assert(s.drop_last() =~= seq![r, g]);
    assert(hex_lower(s) =~= seq![
        hex_digit(r >> 4), hex_digit(r & 0x0f),
        hex_digit(g >> 4), hex_digit(g & 0x0f),
        hex_digit(b >> 4), hex_digit(b & 0x0f)]);
}

proof fn lemma_hex_lower_4(r: u8, g: u8, b: u8, a: u8)
    ensures
        hex_lower(seq![r, g, b, a]) == hex_lower(seq![r, g, b]).push(
            hex_digit(a >> 4),
        ).push(hex_digit(a & 0x0f)),
{
    assert(seq![r, g, b, a].drop_last() =~= seq![r, g, b]);
}

proof fn lemma_digits_after_hash(t: Seq<char>)
    requires
        t.len() > 0,
        t[0] != '#',
    ensures
        color_digits(seq!['#'] + t) == t,
        color_digits(t) == t,
{
    let u = seq!['#'] + t;
    assert(u.len() > 0 && u[0] == '#');
    assert(u.drop_first() =~= t);
    assert(color_digits(t) == t);
    assert(color_digits(u) == color_digits(u.drop_first()));
}

} // verus!

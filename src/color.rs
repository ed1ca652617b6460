use vstd::prelude::*;
use vstd::string::{is_ascii_spec_bytes, StringSliceAdditionalSpecFns};

verus! {

/// The sixteen digits of lower-case hexadecimal, by value.
pub open spec fn hex_chars() -> Seq<char> {
    seq!['0', '1', '2', '3', '4', '5', '6', '7', '8', '9', 'a', 'b', 'c', 'd', 'e', 'f']
}

/// The value of one byte read as a hexadecimal digit, of either case.
pub open spec fn hex_digit(b: u8) -> Option<u8> {
    if 48 <= b && b <= 57 {
        Some((b - 48) as u8)
    } else if 97 <= b && b <= 102 {
        Some((b - 87) as u8)
    } else if 65 <= b && b <= 70 {
        Some((b - 55) as u8)
    } else {
        None
    }
}

/// One colour channel read from two bytes in base 16, as `u8::from_str_radix`
/// reads them: a leading `+` is a sign before a single digit, and text that is
/// not a number gives the channel 0.
pub open spec fn channel_of(hi: u8, lo: u8) -> u8 {
    if hi == 43 {
        match hex_digit(lo) {
            Some(d) => d,
            None => 0,
        }
    } else {
        match (hex_digit(hi), hex_digit(lo)) {
            (Some(h), Some(l)) => (16 * h + l) as u8,
            _ => 0,
        }
    }
}

/// One colour channel read from a single byte in base 16, 0 if it is no digit.
pub open spec fn single_channel_of(b: u8) -> u8 {
    match hex_digit(b) {
        Some(d) => d,
        None => 0,
    }
}

/// The channels named by the text of a colour: the byte at 0 (the `#`) is
/// skipped, then each channel takes two bytes; a text one byte short gives the
/// last channel from its last byte alone.
pub open spec fn rgb_of(bytes: Seq<u8>) -> (u8, u8, u8) {
    (
        channel_of(bytes[1], bytes[2]),
        channel_of(bytes[3], bytes[4]),
        if bytes.len() >= 7 {
            channel_of(bytes[5], bytes[6])
        } else {
            single_channel_of(bytes[5])
        },
    )
}

/// Two lower-case hexadecimal digits for one channel.
pub open spec fn two_digits(v: u8) -> Seq<char> {
    seq![hex_chars()[v as int / 16], hex_chars()[v as int % 16]]
}

/// The text `#rrggbb` of a colour, in lower case.
pub open spec fn hex_text(rgb: (u8, u8, u8)) -> Seq<char> {
    seq!['#'] + two_digits(rgb.0) + two_digits(rgb.1) + two_digits(rgb.2)
}

/// Text that names a colour as `#` and six lower-case hexadecimal digits.
pub open spec fn is_hex_color(s: Seq<char>) -> bool {
    &&& s.len() == 7
    &&& s[0] == '#'
    &&& forall|i: int| 1 <= i < 7 ==> hex_chars().contains(#[trigger] s[i])
}

proof fn lemma_digit_char(k: int)
    requires
        0 <= k < 16,
    ensures
        hex_digit(hex_chars()[k] as u8) == Some(k as u8),
        '0' <= hex_chars()[k] <= 'f',
{
    if k == 0 {} else if k == 1 {} else if k == 2 {} else if k == 3 {}
    else if k == 4 {} else if k == 5 {} else if k == 6 {} else if k == 7 {}
    else if k == 8 {} else if k == 9 {} else if k == 10 {} else if k == 11 {}
    else if k == 12 {} else if k == 13 {} else if k == 14 {} else {}
}

proof fn lemma_two_digits_read_back(v: u8)
    ensures
        channel_of(two_digits(v)[0] as u8, two_digits(v)[1] as u8) == v,
{
    let hi = v as int / 16;
    let lo = v as int % 16;
    lemma_digit_char(hi);
    lemma_digit_char(lo);
    assert(16 * hi + lo == v);
}

proof fn lemma_ascii_bytes(s: &str)
    requires
        forall|i: int| 0 <= i < s@.len() ==> '0' <= #[trigger] s@[i] <= 'f' || s@[i] == '#',
    ensures
        s.spec_bytes() =~= Seq::new(s@.len(), |i: int| s@[i] as u8),
{
    broadcast use is_ascii_spec_bytes;

    assert(vstd::string::is_ascii(s));
}

/// Text written for any three channels reads back as those channels.
pub proof fn lemma_hex_text_reads_back(s: &str, rgb: (u8, u8, u8))
    requires
        s@ == hex_text(rgb),
    ensures
        s.spec_bytes().len() == 7,
        rgb_of(s.spec_bytes()) == rgb,
{
    assert forall|i: int| 1 <= i < 7 implies '0' <= #[trigger] s@[i] <= 'f' by {
        let v = if i < 3 { rgb.0 } else if i < 5 { rgb.1 } else { rgb.2 };
        lemma_digit_char(v as int / 16);
        lemma_digit_char(v as int % 16);
    }
    lemma_ascii_bytes(s);
    lemma_two_digits_read_back(rgb.0);
    lemma_two_digits_read_back(rgb.1);
    lemma_two_digits_read_back(rgb.2);
}

/// A colour written `#rrggbb` in lower case is written back exactly as it was
/// read.
pub proof fn lemma_hex_color_round_trip(s: &str)
    requires
        is_hex_color(s@),
    ensures
        s.spec_bytes().len() == 7,
        hex_text(rgb_of(s.spec_bytes())) == s@,
{
    let d = |i: int| choose|k: int| 0 <= k < 16 && hex_chars()[k] == s@[i];
    assert forall|i: int| 1 <= i < 7 implies 0 <= d(i) < 16 && hex_chars()[d(i)] == s@[i] by {
        assert(hex_chars().contains(s@[i]));
    }
    assert forall|i: int| 0 <= i < s@.len() implies '0' <= #[trigger] s@[i] <= 'f' || s@[i] == '#' by {
        if i > 0 {
            lemma_digit_char(d(i));
        }
    }
    lemma_ascii_bytes(s);
    let b = s.spec_bytes();
    assert forall|j: int| 0 <= j < 3 implies #[trigger] two_digits(
        channel_of(b[1 + 2 * j], b[2 + 2 * j]),
    ) == s@.subrange(1 + 2 * j, 3 + 2 * j) by {
        let (h, l) = (d(1 + 2 * j), d(2 + 2 * j));
        lemma_digit_char(h);
        lemma_digit_char(l);
        let v = (16 * h + l) as u8;
        assert(channel_of(b[1 + 2 * j], b[2 + 2 * j]) == v);
        assert(v as int / 16 == h && v as int % 16 == l);
        assert(two_digits(v) =~= s@.subrange(1 + 2 * j, 3 + 2 * j));
    }
    assert(two_digits(rgb_of(b).0) == s@.subrange(1, 3));
    assert(two_digits(rgb_of(b).1) == s@.subrange(3, 5));
    assert(two_digits(rgb_of(b).2) == s@.subrange(5, 7));
    assert(hex_text(rgb_of(b)) =~= s@);
}

fn hex_digit_exec(b: u8) -> (r: Option<u8>)
    ensures
        r == hex_digit(b),
{
    if 48 <= b && b <= 57 {
        Some(b - 48)
    } else if 97 <= b && b <= 102 {
        Some(b - 87)
    } else if 65 <= b && b <= 70 {
        Some(b - 55)
    } else {
        None
    }
}

fn channel(hi: u8, lo: u8) -> (r: u8)
    ensures
        r == channel_of(hi, lo),
{
    if hi == 43 {
        match hex_digit_exec(lo) {
            Some(d) => d,
            None => 0,
        }
    } else {
        match (hex_digit_exec(hi), hex_digit_exec(lo)) {
            (Some(h), Some(l)) => 16 * h + l,
            _ => 0,
        }
    }
}

/// Reads the channels of a colour written `#rrggbb`.
///
/// The first byte is not looked at, nor any byte after the seventh; a pair of
/// bytes that is not a number in base 16 gives 0 for its channel.
pub fn rgb_from_hex(s: &str) -> (r: (u8, u8, u8))
    requires
        s.spec_bytes().len() >= 6,
    ensures
        r == rgb_of(s.spec_bytes()),
{
    let b = s.as_bytes();
    let last = if b.len() >= 7 {
        channel(b[5], b[6])
    } else {
        match hex_digit_exec(b[5]) {
            Some(d) => d,
            None => 0,
        }
    };
    (channel(b[1], b[2]), channel(b[3], b[4]), last)
}

/// Relies on `String::push`: the character is appended at the end.
#[verifier::external_body]
fn push_char(s: &mut String, c: char)
    ensures
        final(s)@ == old(s)@.push(c),
{
    s.push(c);
}

fn push_two_digits(s: &mut String, v: u8)
    ensures
        final(s)@ == old(s)@ + two_digits(v),
{
    let digits = [
        '0', '1', '2', '3', '4', '5', '6', '7', '8', '9', 'a', 'b', 'c', 'd', 'e', 'f',
    ];
    proof {
        assert(digits@ == hex_chars());
    }
    push_char(s, digits[(v / 16) as usize]);
    push_char(s, digits[(v % 16) as usize]);
    assert(final(s)@ =~= old(s)@ + two_digits(v));
}

/// Writes the channels of a colour as `#rrggbb`, in lower case.
pub fn rgb_to_hex(r: u8, g: u8, b: u8) -> (out: String)
    ensures
        out@ == hex_text((r, g, b)),
{
    let mut out = String::new();
    push_char(&mut out, '#');
    push_two_digits(&mut out, r);
    push_two_digits(&mut out, g);
    push_two_digits(&mut out, b);
    assert(out@ =~= hex_text((r, g, b)));
    out
}

} // verus!

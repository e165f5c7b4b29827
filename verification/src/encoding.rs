//! Standard base64 with padding, as a mathematical function, and its inverse.
use vstd::prelude::*;

verus! {

/// The character of the standard base64 alphabet for the six-bit value `v`:
/// `A`-`Z`, `a`-`z`, `0`-`9`, `+`, `/`.
pub open spec fn b64_digit(v: int) -> char {
    if v < 26 {
        (65 + v) as char
    } else if v < 52 {
        (97 + (v - 26)) as char
    } else if v < 62 {
        (48 + (v - 52)) as char
    } else if v == 62 {
        '+'
    } else {
        '/'
    }
}

/// The six-bit value of a character of the standard base64 alphabet.
pub open spec fn b64_value(c: char) -> int {
    let x = c as int;
    if 65 <= x <= 90 {
        x - 65
    } else if 97 <= x <= 122 {
        x - 71
    } else if 48 <= x <= 57 {
        x + 4
    } else if c == '+' {
        62
    } else if c == '/' {
        63
    } else {
        0
    }
}

/// The standard base64 encoding of `b`, padded with `=`: each group of three
/// bytes becomes four characters of six bits each; a last group of one or two
/// bytes becomes two or three characters and is padded to four.
pub open spec fn base64_standard(b: Seq<u8>) -> Seq<char>
    decreases b.len(),
{
    if b.len() == 0 {
        seq![]
    } else if b.len() == 1 {
        let x = b[0] as int;
        seq![b64_digit(x / 4), b64_digit((x % 4) * 16), '=', '=']
    } else if b.len() == 2 {
        let x = b[0] as int;
        let y = b[1] as int;
        seq![b64_digit(x / 4), b64_digit((x % 4) * 16 + y / 16), b64_digit((y % 16) * 4), '=']
    } else {
        let x = b[0] as int;
        let y = b[1] as int;
        let z = b[2] as int;
        seq![
            b64_digit(x / 4),
            b64_digit((x % 4) * 16 + y / 16),
            b64_digit((y % 16) * 4 + z / 64),
            b64_digit(z % 64),
        ] + base64_standard(b.subrange(3, b.len() as int))
    }
}

/// The bytes of a padded standard base64 text, four characters at a time.
pub open spec fn base64_decode(s: Seq<char>) -> Seq<u8>
    decreases s.len(),
{
    if s.len() < 4 {
        seq![]
    } else {
        let a = b64_value(s[0]);
        let b = b64_value(s[1]);
        let c = b64_value(s[2]);
        let d = b64_value(s[3]);
        let group = if s[2] == '=' {
            seq![(a * 4 + b / 16) as u8]
        } else if s[3] == '=' {
            seq![(a * 4 + b / 16) as u8, ((b % 16) * 16 + c / 4) as u8]
        } else {
            seq![(a * 4 + b / 16) as u8, ((b % 16) * 16 + c / 4) as u8, ((c % 4) * 64 + d) as u8]
        };
        group + base64_decode(s.subrange(4, s.len() as int))
    }
}

proof fn digit_round_trip(v: int)
    requires
        0 <= v < 64,
    ensures
        b64_value(b64_digit(v)) == v,
        b64_digit(v) != '=',
{
}

proof fn byte_split(x: int, y: int, z: int)
    requires
        0 <= x < 256,
        0 <= y < 256,
        0 <= z < 256,
    ensures
        (x / 4) * 4 + ((x % 4) * 16 + y / 16) / 16 == x,
        (((x % 4) * 16 + y / 16) % 16) * 16 + ((y % 16) * 4 + z / 64) / 4 == y,
        (((y % 16) * 4 + z / 64) % 4) * 64 + z % 64 == z,
        (((x % 4) * 16 + y / 16) % 16) * 16 + ((y % 16) * 4) / 4 == y,
        (x / 4) * 4 + ((x % 4) * 16) / 16 == x,
        0 <= (x % 4) * 16 + y / 16 < 64,
        0 <= (y % 16) * 4 + z / 64 < 64,
        0 <= (y % 16) * 4 < 64,
        0 <= (x % 4) * 16 < 64,
        0 <= x / 4 < 64,
        0 <= z % 64 < 64,
{
    let a: u8 = x as u8;
    let b: u8 = y as u8;
    let c: u8 = z as u8;
    assert((a / 4) * 4 + ((a % 4) * 16 + b / 16) / 16 == a) by (bit_vector);
    assert((((a % 4) * 16 + b / 16) % 16) * 16 + ((b % 16) * 4 + c / 64) / 4 == b) by (bit_vector);
    assert((((b % 16) * 4 + c / 64) % 4) * 64 + c % 64 == c) by (bit_vector);
    assert((((a % 4) * 16 + b / 16) % 16) * 16 + ((b % 16) * 4) / 4 == b) by (bit_vector);
    assert((a / 4) * 4 + ((a % 4) * 16) / 16 == a) by (bit_vector);
    assert((a % 4) * 16 + b / 16 < 64) by (bit_vector);
    assert((b % 16) * 4 + c / 64 < 64) by (bit_vector);
}

/// Decoding the standard base64 encoding of some bytes gives those bytes back.
pub proof fn base64_round_trip(b: Seq<u8>)
    ensures
        base64_decode(base64_standard(b)) == b,
    decreases b.len(),
{
    let s = base64_standard(b);
    if b.len() == 0 {
    } else if b.len() == 1 {
        byte_split(b[0] as int, 0, 0);
        digit_round_trip(b[0] as int / 4);
        digit_round_trip((b[0] as int % 4) * 16);
        let x = b[0] as int;
        assert(s.len() == 4 && s[2] == '=');
        assert(b64_value(s[0]) == x / 4 && b64_value(s[1]) == (x % 4) * 16);
        assert(s.subrange(4, s.len() as int) =~= Seq::<char>::empty());
        assert(base64_decode(Seq::<char>::empty()) =~= Seq::<u8>::empty());
        assert(((x / 4) * 4 + ((x % 4) * 16) / 16) as u8 == b[0]);
        assert(base64_decode(s) =~= b);
    } else if b.len() == 2 {
        byte_split(b[0] as int, b[1] as int, 0);
        digit_round_trip(b[0] as int / 4);
        digit_round_trip((b[0] as int % 4) * 16 + b[1] as int / 16);
        digit_round_trip((b[1] as int % 16) * 4);
        let x = b[0] as int;
        let y = b[1] as int;
        assert(s.len() == 4 && s[3] == '=' && s[2] != '=');
        assert(b64_value(s[0]) == x / 4 && b64_value(s[1]) == (x % 4) * 16 + y / 16 && b64_value(s[2]) == (y % 16) * 4);
        assert(s.subrange(4, s.len() as int) =~= Seq::<char>::empty());
        assert(base64_decode(Seq::<char>::empty()) =~= Seq::<u8>::empty());
        assert(((x / 4) * 4 + ((x % 4) * 16 + y / 16) / 16) as u8 == b[0]);
        assert(((((x % 4) * 16 + y / 16) % 16) * 16 + ((y % 16) * 4) / 4) as u8 == b[1]);
        assert(base64_decode(s) =~= b);
    } else {
        let rest = b.subrange(3, b.len() as int);
        byte_split(b[0] as int, b[1] as int, b[2] as int);
        digit_round_trip(b[0] as int / 4);
        digit_round_trip((b[0] as int % 4) * 16 + b[1] as int / 16);
        digit_round_trip((b[1] as int % 16) * 4 + b[2] as int / 64);
        digit_round_trip(b[2] as int % 64);
        base64_round_trip(rest);
        assert(s.subrange(4, s.len() as int) =~= base64_standard(rest));
        assert(b =~= seq![b[0], b[1], b[2]] + rest);
        assert(base64_decode(s) =~= b);
    }
}

} // verus!

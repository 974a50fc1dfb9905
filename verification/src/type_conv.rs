use vstd::prelude::*;
use vstd::string::StringExecFns;

use crate::errors::ConnectError;

verus! {

/// A fixed 32-byte value, as the structured-data schema uses for senders,
/// digests and hashes.
#[derive(Debug, Clone, PartialEq, Eq)]
pub struct Bytes32 {
    pub bytes: Vec<u8>,
}

impl Bytes32 {
    /// Well-formed exactly when it holds 32 bytes.
    pub open spec fn wf(&self) -> bool {
        self.bytes@.len() == 32
    }

    pub open spec fn view(&self) -> Seq<u8> {
        self.bytes@
    }
}

/// The lower-case hex character for a value below 16.
pub open spec fn hex_digit_char(d: nat) -> char {
    if d == 0 {
        '0'
    } else if d == 1 {
        '1'
    } else if d == 2 {
        '2'
    } else if d == 3 {
        '3'
    } else if d == 4 {
        '4'
    } else if d == 5 {
        '5'
    } else if d == 6 {
        '6'
    } else if d == 7 {
        '7'
    } else if d == 8 {
        '8'
    } else if d == 9 {
        '9'
    } else if d == 10 {
        'a'
    } else if d == 11 {
        'b'
    } else if d == 12 {
        'c'
    } else if d == 13 {
        'd'
    } else if d == 14 {
        'e'
    } else {
        'f'
    }
}

/// The two lower-case hex characters of one byte, high nibble first.
pub open spec fn hex_of_byte(b: u8) -> Seq<char> {
    seq![hex_digit_char(b as nat / 16), hex_digit_char(b as nat % 16)]
}

/// The lower-case hex encoding of a byte sequence, two characters per byte.
pub open spec fn hex_seq(bs: Seq<u8>) -> Seq<char>
    decreases bs.len(),
{
    if bs.len() == 0 {
        Seq::empty()
    } else {
        hex_of_byte(bs[0]) + hex_seq(bs.drop_first())
    }
}

pub proof fn lemma_hex_seq_len(bs: Seq<u8>)
    ensures
        hex_seq(bs).len() == 2 * bs.len(),
    decreases bs.len(),
{
    if bs.len() > 0 {
        lemma_hex_seq_len(bs.drop_first());
    }
}

/// Encoding a sequence with one more byte at the end appends that byte's two
/// characters.
pub proof fn lemma_hex_seq_snoc(bs: Seq<u8>, b: u8)
    ensures
        hex_seq(bs.push(b)) =~= hex_seq(bs) + hex_of_byte(b),
    decreases bs.len(),
{
    if bs.len() == 0 {
        assert(bs.push(b).drop_first() =~= Seq::<u8>::empty());
        assert(bs.push(b)[0] == b);
        assert(hex_seq(bs.push(b)) =~= hex_of_byte(b) + hex_seq(Seq::<u8>::empty()));
    } else {
        assert(bs.push(b).drop_first() =~= bs.drop_first().push(b));
        assert(bs.push(b)[0] == bs[0]);
        lemma_hex_seq_snoc(bs.drop_first(), b);
        lemma_hex_seq_len(bs.drop_first());
        assert(hex_seq(bs.push(b)) =~= hex_of_byte(bs[0]) + (hex_seq(bs.drop_first())
            + hex_of_byte(b)));
    }
}

/// One lower-case hex character as a string slice.
fn hex_digit_str(d: u8) -> (r: &'static str)
    requires
        d < 16,
    ensures
        r@ =~= seq![hex_digit_char(d as nat)],
{
    proof {
        reveal_strlit("0");
        reveal_strlit("1");
        reveal_strlit("2");
        reveal_strlit("3");
        reveal_strlit("4");
        reveal_strlit("5");
        reveal_strlit("6");
        reveal_strlit("7");
        reveal_strlit("8");
        reveal_strlit("9");
        reveal_strlit("a");
        reveal_strlit("b");
        reveal_strlit("c");
        reveal_strlit("d");
        reveal_strlit("e");
        reveal_strlit("f");
    }
    match d {
        0 => "0",
        1 => "1",
        2 => "2",
        3 => "3",
        4 => "4",
        5 => "5",
        6 => "6",
        7 => "7",
        8 => "8",
        9 => "9",
        10 => "a",
        11 => "b",
        12 => "c",
        13 => "d",
        14 => "e",
        _ => "f",
    }
}

/// Lower-case hex encoding of a byte slice.
pub fn hex_encode(bs: &[u8]) -> (r: String)
    ensures
        r@ == hex_seq(bs@),
{
    let mut r = String::new();
    let mut i: usize = 0;
    while i < bs.len()
        invariant
            i <= bs@.len(),
            r@ == hex_seq(bs@.take(i as int)),
        decreases bs@.len() - i,
    {
        let b = bs[i];
        r.append(hex_digit_str(b / 16));
        r.append(hex_digit_str(b % 16));
        proof {
            assert(bs@.take(i + 1) =~= bs@.take(i as int).push(bs@[i as int]));
            lemma_hex_seq_snoc(bs@.take(i as int), bs@[i as int]);
        }
        i = i + 1;
    }
    proof {
        assert(bs@.take(bs@.len() as int) =~= bs@);
    }
    r
}

/// Whether a character is a hex digit, either case.
pub open spec fn is_hex_char(c: char) -> bool {
    ('0' <= c && c <= '9') || ('a' <= c && c <= 'f') || ('A' <= c && c <= 'F')
}

/// The value of a hex digit character.
pub open spec fn hex_char_val(c: char) -> nat
    recommends
        is_hex_char(c),
{
    if '0' <= c && c <= '9' {
        (c as nat - 48) as nat
    } else if 'a' <= c && c <= 'f' {
        (c as nat - 87) as nat
    } else {
        (c as nat - 55) as nat
    }
}

/// Whether a character sequence is a well-formed hex string: even length, hex
/// digits only.
pub open spec fn is_hex_str(s: Seq<char>) -> bool {
    s.len() % 2 == 0 && forall|i: int| 0 <= i < s.len() ==> is_hex_char(#[trigger] s[i])
}

/// The bytes a well-formed hex string denotes, one byte per character pair.
pub open spec fn hex_decode_seq(s: Seq<char>) -> Seq<u8>
    recommends
        is_hex_str(s),
    decreases s.len(),
{
    if s.len() < 2 {
        Seq::empty()
    } else {
        seq![(hex_char_val(s[0]) * 16 + hex_char_val(s[1])) as u8] + hex_decode_seq(
            s.skip(2),
        )
    }
}

pub proof fn lemma_hex_decode_seq_len(s: Seq<char>)
    requires
        s.len() % 2 == 0,
    ensures
        hex_decode_seq(s).len() == s.len() / 2,
    decreases s.len(),
{
    if s.len() >= 2 {
        lemma_hex_decode_seq_len(s.skip(2));
    }
}

/// The value of one hex digit character, or `None` when it is no hex digit.
fn hex_char_val_exec(c: char) -> (r: Option<u8>)
    ensures
        r is Some <==> is_hex_char(c),
        r matches Some(v) ==> v == hex_char_val(c) && v < 16,
{
    let u = c as u32;
    if u >= 48 && u <= 57 {
        Some((u - 48) as u8)
    } else if u >= 97 && u <= 102 {
        Some((u - 87) as u8)
    } else if u >= 65 && u <= 70 {
        Some((u - 55) as u8)
    } else {
        None
    }
}

/// Decodes a hex string into bytes; `None` when the length is odd or a
/// character is no hex digit.
pub fn hex_decode(s: &str) -> (r: Option<Vec<u8>>)
    ensures
        r is Some <==> is_hex_str(s@),
        r matches Some(v) ==> v@ == hex_decode_seq(s@),
{
    let n = s.unicode_len();
    if n % 2 != 0 {
        return None;
    }
    let mut out: Vec<u8> = Vec::new();
    let mut i: usize = 0;
    while i < n
        invariant
            n == s@.len(),
            n % 2 == 0,
            i <= n,
            i % 2 == 0,
            forall|j: int| 0 <= j < i ==> is_hex_char(#[trigger] s@[j]),
            out@ == hex_decode_seq(s@.take(i as int)),
        decreases n - i,
    {
        let hi = match hex_char_val_exec(s.get_char(i)) {
            Some(v) => v,
            None => {
                return None;
            },
        };
        let lo = match hex_char_val_exec(s.get_char(i + 1)) {
            Some(v) => v,
            None => {
                return None;
            },
        };
        out.push(hi * 16 + lo);
        proof {
            lemma_hex_decode_snoc(s@, i as int);
        }
        i = i + 2;
    }
    proof {
        assert(s@.take(n as int) =~= s@);
    }
    Some(out)
}

/// Decoding two more characters appends the byte they denote.
proof fn lemma_hex_decode_snoc(s: Seq<char>, i: int)
    requires
        0 <= i,
        i % 2 == 0,
        i + 2 <= s.len(),
    ensures
        hex_decode_seq(s.take(i + 2)) =~= hex_decode_seq(s.take(i)).push(
            (hex_char_val(s[i]) * 16 + hex_char_val(s[i + 1])) as u8,
        ),
    decreases i,
{
    if i == 0 {
        assert(s.take(2).skip(2) =~= Seq::<char>::empty());
        assert(s.take(0) =~= Seq::<char>::empty());
    } else {
        assert(s.take(i + 2).skip(2) =~= s.skip(2).take(i));
        assert(s.take(i).skip(2) =~= s.skip(2).take(i - 2));
        assert(s.take(i + 2)[0] == s[0]);
        assert(s.take(i + 2)[1] == s[1]);
        assert(s.take(i)[0] == s[0]);
        assert(s.take(i)[1] == s[1]);
        lemma_hex_decode_snoc(s.skip(2), i - 2);
        assert(s.skip(2)[i - 2] == s[i]);
        assert(s.skip(2)[i - 1] == s[i + 1]);
    }
}

/// A byte sequence zero-padded at its end to 32 bytes.
pub open spec fn pad32(bs: Seq<u8>) -> Seq<u8>
    recommends
        bs.len() <= 32,
{
    bs + Seq::new((32 - bs.len()) as nat, |i: int| 0u8)
}

/// Zero-padding round-trips: the first bytes of the padded value are the
/// input unchanged, and every byte after them is zero.
pub proof fn lemma_pad32_round_trip(bs: Seq<u8>)
    requires
        bs.len() <= 32,
    ensures
        pad32(bs).len() == 32,
        pad32(bs).take(bs.len() as int) == bs,
        forall|i: int| bs.len() <= i < 32 ==> pad32(bs)[i] == 0,
{
    assert(pad32(bs).take(bs.len() as int) =~= bs);
}

/// The character sequence left after removing one leading "0x", when present.
pub open spec fn strip_0x(s: Seq<char>) -> Seq<char> {
    if s.len() >= 2 && s[0] == '0' && s[1] == 'x' {
        s.skip(2)
    } else {
        s
    }
}

/// Removes one leading "0x" prefix, when present.
pub fn strip_0x_prefix(s: &str) -> (r: &str)
    ensures
        r@ == strip_0x(s@),
{
    let n = s.unicode_len();
    if n >= 2 && s.get_char(0) == '0' && s.get_char(1) == 'x' {
        s.substring_char(2, n)
    } else {
        proof {
            assert(s@.subrange(0, s@.len() as int) =~= s@);
        }
        s.substring_char(0, n)
    }
}

/// Whether a hex string (an optional "0x" prefix removed) is well-formed and
/// denotes at most 32 bytes: exactly the strings a 32-byte value can be
/// built from.
pub open spec fn valid_hex32(s: Seq<char>) -> bool {
    is_hex_str(strip_0x(s)) && hex_decode_seq(strip_0x(s)).len() <= 32
}

/// Decodes a hex string (an optional "0x" prefix removed) into a 32-byte
/// value, the decoded bytes first and zero bytes after them.  Fails when the
/// string is no well-formed hex or denotes more than 32 bytes.
pub fn hex_to_fixed_bytes32(hex_str: &str) -> (r: Result<Bytes32, ConnectError>)
    ensures
        r matches Ok(b) ==> {
            &&& b.wf()
            &&& is_hex_str(strip_0x(hex_str@))
            &&& hex_decode_seq(strip_0x(hex_str@)).len() <= 32
            &&& b@ == pad32(hex_decode_seq(strip_0x(hex_str@)))
        },
        r is Ok <==> valid_hex32(hex_str@),
        r matches Err(e) ==> e is Signing,
{
    let stripped = strip_0x_prefix(hex_str);
    let decoded = match hex_decode(stripped) {
        Some(v) => v,
        None => {
            return Err(ConnectError::Signing(String::from_str("hex string is not well-formed")));
        },
    };
    if decoded.len() > 32 {
        return Err(ConnectError::Signing(String::from_str("hex string too long")));
    }
    pad_to_fixed_bytes32(&decoded)
}

/// Wraps exactly 32 bytes; fails on any other length.
pub fn vec_to_fixed_bytes32(vec: Vec<u8>) -> (r: Result<Bytes32, ConnectError>)
    ensures
        r is Ok <==> vec@.len() == 32,
        r matches Ok(b) ==> b@ == vec@ && b.wf(),
        r matches Err(e) ==> e is Signing,
{
    if vec.len() != 32 {
        Err(ConnectError::Signing(String::from_str("vector must be 32 bytes long")))
    } else {
        Ok(Bytes32 { bytes: vec })
    }
}

/// Zero-pads at most 32 bytes up to exactly 32: the input bytes first, zero
/// bytes after them.  Fails when the input is longer than 32 bytes.
pub fn pad_to_fixed_bytes32(input: &Vec<u8>) -> (r: Result<Bytes32, ConnectError>)
    ensures
        r is Ok <==> input@.len() <= 32,
        r matches Ok(b) ==> {
            &&& b.wf()
            &&& b@ == pad32(input@)
            &&& b@.take(input@.len() as int) == input@
            &&& forall|i: int| input@.len() <= i < 32 ==> b@[i] == 0
        },
        r matches Err(e) ==> e is Signing,
{
    if input.len() > 32 {
        return Err(ConnectError::Signing(String::from_str("input must be at most 32 bytes long")));
    }
    let mut bytes: Vec<u8> = Vec::new();
    let mut i: usize = 0;
    while i < input.len()
        invariant
            i <= input@.len(),
            bytes@ =~= input@.take(i as int),
        decreases input@.len() - i,
    {
        bytes.push(input[i]);
        proof {
            assert(input@.take(i + 1) =~= input@.take(i as int).push(input@[i as int]));
        }
        i = i + 1;
    }
    proof {
        assert(input@.take(input@.len() as int) =~= input@);
    }
    while i < 32
        invariant
            input@.len() <= i <= 32,
            bytes@.len() == i,
            bytes@.take(input@.len() as int) =~= input@,
            forall|j: int| input@.len() <= j < i ==> bytes@[j] == 0,
        decreases 32 - i,
    {
        bytes.push(0);
        i = i + 1;
    }
    Ok(Bytes32 { bytes })
}

/// Lower-case hex encoding of a 32-byte value, 64 characters, no prefix.
pub fn fixed_bytes_to_hex(bytes: &Bytes32) -> (r: String)
    ensures
        r@ == hex_seq(bytes@),
{
    hex_encode(bytes.bytes.as_slice())
}

} // verus!

//! The OSC 52 clipboard payload.
//!
//! Copying emits `ESC ] 5 2 ; c ; <base64(text)> BEL`; raw UTF-8 payloads over
//! 100 KiB are refused before any byte is written. The writer that sends the
//! sequence to the terminal lives with the program's I/O.

use vstd::prelude::*;
use vstd::string::StringSliceAdditionalSpecFns;
use crate::text::{concat, push_char};

verus! {

/// Maximum raw UTF-8 payload size for OSC 52 clipboard writes (100 KiB).
pub const MAX_PAYLOAD: usize = 100 * 1024;

/// Why a clipboard write failed.
#[derive(Debug, Clone, PartialEq, Eq)]
pub enum ClipboardError {
    /// The raw payload exceeds the size limit; nothing was written.
    TooLarge,
    /// The terminal writer failed, with its message.
    Other(String),
}

/// The standard base64 alphabet of RFC 4648.
pub open spec fn spec_alphabet() -> Seq<char> {
    "ABCDEFGHIJKLMNOPQRSTUVWXYZabcdefghijklmnopqrstuvwxyz0123456789+/"@
}

/// The four output characters of one input group of one to three bytes,
/// padded with `=` where the group is short.
pub open spec fn spec_group(b0: u8, b1: u8, b2: u8, n: int) -> Seq<char> {
    let a = spec_alphabet();
    seq![
        a[(b0 / 4) as int],
        a[(b0 % 4) * 16 + b1 / 16],
        if n >= 2 { a[(b1 % 16) * 4 + b2 / 64] } else { '=' },
        if n >= 3 { a[(b2 % 64) as int] } else { '=' },
    ]
}

/// Base64 of a byte sequence (RFC 4648, standard alphabet, `=` padding).
pub open spec fn spec_base64(b: Seq<u8>) -> Seq<char>
    decreases b.len(),
{
    if b.len() == 0 {
        Seq::empty()
    } else if b.len() == 1 {
        spec_group(b[0], 0, 0, 1)
    } else if b.len() == 2 {
        spec_group(b[0], b[1], 0, 2)
    } else {
        spec_group(b[0], b[1], b[2], 3) + spec_base64(b.subrange(3, b.len() as int))
    }
}

/// Base64 output is four characters for every started group of three
/// bytes.
pub proof fn lemma_base64_len(b: Seq<u8>)
    ensures
        spec_base64(b).len() == 4 * ((b.len() + 2) / 3),
    decreases b.len(),
{
    if b.len() >= 3 {
        lemma_base64_len(b.subrange(3, b.len() as int));
    }
}

/// The alphabet character for a six-bit value, by ranges: `A`–`Z`,
/// `a`–`z`, `0`–`9`, `+`, `/`.
pub open spec fn spec_alpha_char(i: int) -> char {
    if i < 26 {
        (65 + i) as char
    } else if i < 52 {
        (97 + i - 26) as char
    } else if i < 62 {
        (48 + i - 52) as char
    } else if i == 62 {
        '+'
    } else {
        '/'
    }
}

/// The alphabet lists those characters in that order.
proof fn lemma_alphabet_ranges()
    ensures
        spec_alphabet().len() == 64,
        forall|i: int| 0 <= i < 64 ==> #[trigger] spec_alphabet()[i] == spec_alpha_char(i),
{
    reveal_strlit("ABCDEFGHIJKLMNOPQRSTUVWXYZabcdefghijklmnopqrstuvwxyz0123456789+/");
    assert(spec_alphabet() =~= Seq::new(64, |i: int| spec_alpha_char(i)));
}

/// Whether a character is one of the sixty-four alphabet characters.
pub open spec fn spec_is_alphabet(c: char) -> bool {
    let v = c as int;
    (65 <= v <= 90) || (97 <= v <= 122) || (48 <= v <= 57) || c == '+' || c == '/'
}

/// The six-bit value an alphabet character stands for.
pub open spec fn spec_sextet(c: char) -> int {
    let v = c as int;
    if 65 <= v <= 90 {
        v - 65
    } else if 97 <= v <= 122 {
        v - 97 + 26
    } else if 48 <= v <= 57 {
        v - 48 + 52
    } else if c == '+' {
        62
    } else {
        63
    }
}

/// The bytes of one four-character group: one, two or three, as the
/// padding says.
pub open spec fn spec_decode_group(g: Seq<char>) -> Seq<u8> {
    let v0 = spec_sextet(g[0]);
    let v1 = spec_sextet(g[1]);
    let v2 = spec_sextet(g[2]);
    let v3 = spec_sextet(g[3]);
    let b0 = (v0 * 4 + v1 / 16) as u8;
    if g[2] == '=' {
        seq![b0]
    } else if g[3] == '=' {
        seq![b0, ((v1 % 16) * 16 + v2 / 4) as u8]
    } else {
        seq![b0, ((v1 % 16) * 16 + v2 / 4) as u8, ((v2 % 4) * 64 + v3) as u8]
    }
}

/// Standard base64 decoding, group by group.
pub open spec fn spec_base64_decode(s: Seq<char>) -> Seq<u8>
    decreases s.len(),
{
    if s.len() < 4 {
        Seq::empty()
    } else {
        spec_decode_group(s.take(4)) + spec_base64_decode(s.skip(4))
    }
}

/// Each alphabet character stands for its position, and none is `=`.
proof fn lemma_alphabet_inverse(i: int)
    requires
        0 <= i < 64,
    ensures
        spec_alphabet()[i] == spec_alpha_char(i),
        spec_sextet(spec_alphabet()[i]) == i,
        spec_is_alphabet(spec_alphabet()[i]),
        spec_alphabet()[i] != '=',
{
    lemma_alphabet_ranges();
}

/// One group decodes to the bytes it was encoded from.
proof fn lemma_group_round_trip(b0: u8, b1: u8, b2: u8, n: int)
    requires
        1 <= n <= 3,
    ensures
        spec_decode_group(spec_group(b0, b1, b2, n)) == (if n == 1 {
            seq![b0]
        } else if n == 2 {
            seq![b0, b1]
        } else {
            seq![b0, b1, b2]
        }),
        forall|k: int| 0 <= k < n + 1 ==> spec_is_alphabet(#[trigger] spec_group(b0, b1, b2, n)[k]),
        forall|k: int| n + 1 <= k < 4 ==> #[trigger] spec_group(b0, b1, b2, n)[k] == '=',
{
    let i0 = (b0 / 4) as int;
    let i1 = (b0 % 4) * 16 + b1 / 16;
    let i2 = (b1 % 16) * 4 + b2 / 64;
    let i3 = (b2 % 64) as int;
    lemma_alphabet_inverse(i0);
    lemma_alphabet_inverse(i1);
    lemma_alphabet_inverse(i2);
    lemma_alphabet_inverse(i3);
    let g = spec_group(b0, b1, b2, n);
    assert(i1 / 16 == b0 % 4);
    assert(i1 % 16 == b1 / 16);
    assert(i2 / 4 == b1 % 16);
    assert(i2 % 4 == b2 / 64);
    assert(i0 * 4 + i1 / 16 == b0);
    assert((i1 % 16) * 16 + i2 / 4 == b1);
    assert((i2 % 4) * 64 + i3 == b2);
    if n == 1 {
        assert(spec_decode_group(g) =~= seq![b0]);
    } else if n == 2 {
        assert(spec_decode_group(g) =~= seq![b0, b1]);
    } else {
        assert(spec_decode_group(g) =~= seq![b0, b1, b2]);
    }
}

/// Decoding base64 gives the bytes back.
proof fn lemma_base64_decodes(b: Seq<u8>)
    ensures
        spec_base64_decode(spec_base64(b)) == b,
    decreases b.len(),
{
    let s = spec_base64(b);
    if b.len() == 0 {
        assert(spec_base64_decode(s) =~= b);
    } else if b.len() < 3 {
        if b.len() == 1 {
            lemma_group_round_trip(b[0], 0, 0, 1);
        } else {
            lemma_group_round_trip(b[0], b[1], 0, 2);
        }
        assert(s.take(4) =~= s);
        assert(s.skip(4).len() == 0);
        assert(spec_base64_decode(s.skip(4)) =~= Seq::<u8>::empty());
        assert(spec_base64_decode(s) =~= b);
    } else {
        let rest = b.subrange(3, b.len() as int);
        lemma_base64_decodes(rest);
        lemma_group_round_trip(b[0], b[1], b[2], 3);
        let g = spec_group(b[0], b[1], b[2], 3);
        assert(s == g + spec_base64(rest));
        assert(s.take(4) =~= g);
        assert(s.skip(4) =~= spec_base64(rest));
        assert(spec_base64_decode(s) == seq![b[0], b[1], b[2]] + rest);
        assert(b =~= seq![b[0], b[1], b[2]] + rest);
    }
}

/// Every base64 character comes from the alphabet except the `=`
/// padding, exactly `(3 - n % 3) % 3` characters at the end.
proof fn lemma_base64_padding(b: Seq<u8>)
    ensures
        ({
            let s = spec_base64(b);
            let pad = (3 - b.len() % 3) % 3;
            &&& forall|k: int| 0 <= k < s.len() - pad ==> spec_is_alphabet(#[trigger] s[k])
            &&& forall|k: int| s.len() - pad <= k < s.len() ==> #[trigger] s[k] == '='
        }),
    decreases b.len(),
{
    let s = spec_base64(b);
    lemma_base64_len(b);
    if b.len() == 1 {
        lemma_group_round_trip(b[0], 0, 0, 1);
    } else if b.len() == 2 {
        lemma_group_round_trip(b[0], b[1], 0, 2);
    } else if b.len() >= 3 {
        let rest = b.subrange(3, b.len() as int);
        lemma_base64_padding(rest);
        lemma_base64_len(rest);
        lemma_group_round_trip(b[0], b[1], b[2], 3);
        let g = spec_group(b[0], b[1], b[2], 3);
        let t = spec_base64(rest);
        assert(s == g + t);
        let pad = (3 - b.len() % 3) % 3;
        assert(pad == (3 - rest.len() % 3) % 3);
        assert forall|k: int| 0 <= k < s.len() - pad implies spec_is_alphabet(#[trigger] s[k]) by {
            if k >= 4 {
                assert(s[k] == t[k - 4]);
            } else {
                assert(s[k] == g[k]);
            }
        }
        assert forall|k: int| s.len() - pad <= k < s.len() implies #[trigger] s[k] == '=' by {
            assert(s[k] == t[k - 4]);
        }
    }
}

/// Base64 as RFC 4648 writes it: every character comes from the alphabet
/// except the `=` padding, which is exactly `(3 - n % 3) % 3` characters
/// at the end for `n` bytes; and standard decoding gives the bytes back.
pub proof fn lemma_base64_round_trip(b: Seq<u8>)
    ensures
        spec_base64_decode(spec_base64(b)) == b,
        spec_base64(b).len() == 4 * ((b.len() + 2) / 3),
        ({
            let s = spec_base64(b);
            let pad = (3 - b.len() % 3) % 3;
            &&& forall|k: int| 0 <= k < s.len() - pad ==> spec_is_alphabet(#[trigger] s[k])
            &&& forall|k: int| s.len() - pad <= k < s.len() ==> #[trigger] s[k] == '='
        }),
{
    lemma_base64_decodes(b);
    lemma_base64_padding(b);
    lemma_base64_len(b);
}

/// The terminal sequence that puts `text` on the system clipboard.
pub open spec fn spec_osc52(bytes: Seq<u8>) -> Seq<char> {
    "\x1b]52;c;"@ + spec_base64(bytes) + "\x07"@
}

/// The alphabet character for a six-bit value.
fn alphabet_char(i: u8) -> (c: char)
    requires
        i < 64,
    ensures
        c == spec_alphabet()[i as int],
{
    let a = "ABCDEFGHIJKLMNOPQRSTUVWXYZabcdefghijklmnopqrstuvwxyz0123456789+/";
    proof {
        reveal_strlit("ABCDEFGHIJKLMNOPQRSTUVWXYZabcdefghijklmnopqrstuvwxyz0123456789+/");
    }
    a.get_char(i as usize)
}

/// Base64 encoding of the UTF-8 bytes of `input` (RFC 4648, standard
/// alphabet, canonical `=` padding).
pub fn base64_encode(input: &str) -> (r: String)
    ensures
        r@ == spec_base64(input.spec_bytes()),
        r@.len() == 4 * ((input.spec_bytes().len() + 2) / 3),
{
    proof {
        lemma_base64_len(input.spec_bytes());
    }
    let bytes = input.as_bytes();
    let n = bytes.len();
    let mut out = String::new();
    let mut i: usize = 0;
    proof {
        assert(bytes@.subrange(0, n as int) =~= bytes@);
        assert(out@ + spec_base64(bytes@) =~= spec_base64(bytes@));
    }
    while i < n
        invariant
            n == bytes@.len(),
            bytes@ == input.spec_bytes(),
            i <= n,
            out@ + spec_base64(bytes@.subrange(i as int, n as int)) == spec_base64(bytes@),
        decreases n - i,
    {
        let ghost rest = bytes@.subrange(i as int, n as int);
        let b0 = bytes[i];
        let b1: u8 = if n - i > 1 { bytes[i + 1] } else { 0 };
        let b2: u8 = if n - i > 2 { bytes[i + 2] } else { 0 };
        let ghost before = out@;
        push_char(&mut out, alphabet_char(b0 / 4));
        push_char(&mut out, alphabet_char((b0 % 4) * 16 + b1 / 16));
        if n - i > 1 {
            push_char(&mut out, alphabet_char((b1 % 16) * 4 + b2 / 64));
        } else {
            push_char(&mut out, '=');
        }
        if n - i > 2 {
            push_char(&mut out, alphabet_char(b2 % 64));
        } else {
            push_char(&mut out, '=');
        }
        proof {
            let len: int = if n - i >= 3 { 3 } else { n - i };
            assert(out@ =~= before + spec_group(b0, b1, b2, len));
            if n - i >= 3 {
                assert(rest.subrange(3, rest.len() as int) =~= bytes@.subrange(i + 3, n as int));
                assert(rest[0] == b0 && rest[1] == b1 && rest[2] == b2);
            } else if n - i == 2 {
                assert(rest[0] == b0 && rest[1] == b1);
                assert(bytes@.subrange(n as int, n as int) =~= Seq::<u8>::empty());
            } else {
                assert(rest[0] == b0);
                assert(bytes@.subrange(n as int, n as int) =~= Seq::<u8>::empty());
            }
        }
        i = if n - i >= 3 { i + 3 } else { n };
    }
    proof {
        assert(bytes@.subrange(n as int, n as int) =~= Seq::<u8>::empty());
        assert(out@ + Seq::<char>::empty() =~= out@);
    }
    out
}

/// The OSC 52 sequence for a copy of `text`, or `TooLarge` when its UTF-8
/// bytes exceed `MAX_PAYLOAD`.
pub fn osc52_sequence(text: &str) -> (r: Result<String, ClipboardError>)
    ensures
        text.spec_bytes().len() > MAX_PAYLOAD ==> r == Err::<String, ClipboardError>(ClipboardError::TooLarge),
        text.spec_bytes().len() <= MAX_PAYLOAD ==> r is Ok && r->Ok_0@ == spec_osc52(text.spec_bytes()),
{
    if text.as_bytes().len() > MAX_PAYLOAD {
        return Err(ClipboardError::TooLarge);
    }
    let encoded = base64_encode(text);
    let head = concat("\x1b]52;c;", encoded.as_str());
    let r = concat(head.as_str(), "\x07");
    Ok(r)
}

} // verus!

//! Base64 in the standard alphabet with padding: what the text of an encoded
//! artifact is, how such text decodes, and that decoding undoes encoding.

use vstd::prelude::*;

verus! {

/// The symbol of the standard alphabet that stands for the six-bit value `v`.
pub open spec fn symbol(v: int) -> char {
    if v < 26 {
        (v + 65) as char
    } else if v < 52 {
        (v + 71) as char
    } else if v < 62 {
        (v - 4) as char
    } else if v == 62 {
        '+'
    } else {
        '/'
    }
}

/// The six-bit value that `c` stands for, if `c` is a symbol of the alphabet.
pub open spec fn symbol_value(c: char) -> Option<int> {
    let n = c as int;
    if 65 <= n <= 90 {
        Some(n - 65)
    } else if 97 <= n <= 122 {
        Some(n - 71)
    } else if 48 <= n <= 57 {
        Some(n + 4)
    } else if c == '+' {
        Some(62)
    } else if c == '/' {
        Some(63)
    } else {
        None
    }
}

/// The padding symbol.
pub open spec fn pad() -> char {
    '='
}

/// The byte at place `i` of a group of at most three; a byte that the group
/// lacks counts as zero.
pub open spec fn group_byte(group: Seq<u8>, i: int) -> int {
    if i < group.len() {
        group[i] as int
    } else {
        0
    }
}

/// The four symbols that encode a group of one, two or three bytes: the 24
/// bits of the group, six at a time from the top, with padding in place of
/// the symbols that hold no bit of the group.
pub open spec fn group_text(group: Seq<u8>) -> Seq<char> {
    let b0 = group_byte(group, 0);
    let b1 = group_byte(group, 1);
    let b2 = group_byte(group, 2);
    seq![
        symbol(b0 / 4),
        symbol(b0 % 4 * 16 + b1 / 16),
        if group.len() > 1 {
            symbol(b1 % 16 * 4 + b2 / 64)
        } else {
            pad()
        },
        if group.len() > 2 {
            symbol(b2 % 64)
        } else {
            pad()
        },
    ]
}

/// The base64 text of `bytes`: each group of three bytes gives four symbols,
/// and a last group of one or two bytes is padded to four.
pub open spec fn base64_text(bytes: Seq<u8>) -> Seq<char>
    decreases bytes.len(),
{
    if bytes.len() == 0 {
        Seq::empty()
    } else if bytes.len() <= 3 {
        group_text(bytes)
    } else {
        group_text(bytes.take(3)) + base64_text(bytes.skip(3))
    }
}

/// The length of the base64 text of `n` bytes.
pub open spec fn base64_len(n: nat) -> nat {
    (n + 2) / 3 * 4
}

/// The bytes that four symbols stand for, `None` where they are no group:
/// a symbol outside the alphabet, padding anywhere but at the end, or bits
/// set that no byte would hold.
pub open spec fn group_bytes(quad: Seq<char>) -> Option<Seq<u8>> {
    match (symbol_value(quad[0]), symbol_value(quad[1])) {
        (Some(a), Some(b)) => {
            if quad[2] == pad() {
                if quad[3] == pad() && b % 16 == 0 {
                    Some(seq![(a * 4 + b / 16) as u8])
                } else {
                    None
                }
            } else {
                match symbol_value(quad[2]) {
                    None => None,
                    Some(c) => {
                        if quad[3] == pad() {
                            if c % 4 == 0 {
                                Some(seq![(a * 4 + b / 16) as u8, (b % 16 * 16 + c / 4) as u8])
                            } else {
                                None
                            }
                        } else {
                            match symbol_value(quad[3]) {
                                None => None,
                                Some(d) => Some(
                                    seq![
                                        (a * 4 + b / 16) as u8,
                                        (b % 16 * 16 + c / 4) as u8,
                                        (c % 4 * 64 + d) as u8,
                                    ],
                                ),
                            }
                        }
                    },
                }
            }
        },
        _ => None,
    }
}

/// The bytes that `text` decodes to, `None` where `text` is not the base64
/// text of any bytes.
pub open spec fn base64_bytes(text: Seq<char>) -> Option<Seq<u8>>
    decreases text.len(),
{
    if text.len() == 0 {
        Some(Seq::empty())
    } else if text.len() < 4 {
        None
    } else {
        match group_bytes(text.take(4)) {
            None => None,
            Some(group) => {
                if text.len() == 4 {
                    Some(group)
                } else if group.len() < 3 {
                    None
                } else {
                    match base64_bytes(text.skip(4)) {
                        None => None,
                        Some(rest) => Some(group + rest),
                    }
                }
            },
        }
    }
}

/// A symbol stands for the value it was chosen for, and is never the
/// padding symbol.
proof fn lemma_symbol_value(v: int)
    requires
        0 <= v < 64,
    ensures
        symbol_value(symbol(v)) == Some(v),
        symbol(v) != pad(),
{
}

/// The four symbols of a group decode to the group.
proof fn lemma_group_round_trip(group: Seq<u8>)
    requires
        1 <= group.len() <= 3,
    ensures
        group_text(group).len() == 4,
        group_bytes(group_text(group)) == Some(group),
{
    let b0 = group_byte(group, 0);
    let b1 = group_byte(group, 1);
    let b2 = group_byte(group, 2);
    let s0 = b0 / 4;
    let s1 = b0 % 4 * 16 + b1 / 16;
    let s2 = b1 % 16 * 4 + b2 / 64;
    let s3 = b2 % 64;
    lemma_symbol_value(s0);
    lemma_symbol_value(s1);
    lemma_symbol_value(s2);
    lemma_symbol_value(s3);
    assert(s0 * 4 + s1 / 16 == b0);
    assert(s1 % 16 * 16 + s2 / 4 == b1);
    assert(s2 % 4 * 64 + s3 == b2);
    assert(group_bytes(group_text(group)).unwrap() =~= group);
}

/// The base64 text of `n` bytes has `base64_len(n)` symbols.
pub proof fn lemma_base64_text_len(bytes: Seq<u8>)
    ensures
        base64_text(bytes).len() == base64_len(bytes.len()),
    decreases bytes.len(),
{
    if bytes.len() > 3 {
        lemma_base64_text_len(bytes.skip(3));
    }
}

/// Decoding undoes encoding: the base64 text of any bytes decodes, and to
/// the very same bytes.
pub proof fn lemma_base64_round_trip(bytes: Seq<u8>)
    ensures
        base64_bytes(base64_text(bytes)) == Some(bytes),
    decreases bytes.len(),
{
    let text = base64_text(bytes);
    if bytes.len() == 0 {
        assert(base64_bytes(text).unwrap() =~= bytes);
    } else if bytes.len() <= 3 {
        lemma_group_round_trip(bytes);
        assert(text.take(4) =~= text);
    } else {
        let head = bytes.take(3);
        let tail = bytes.skip(3);
        lemma_group_round_trip(head);
        lemma_base64_round_trip(tail);
        lemma_base64_text_len(tail);
        assert(text.take(4) =~= group_text(head));
        assert(text.skip(4) =~= base64_text(tail));
        assert(head + tail =~= bytes);
    }
}

/// Two byte strings with the same base64 text are the same bytes.
pub proof fn lemma_base64_injective(a: Seq<u8>, b: Seq<u8>)
    requires
        base64_text(a) == base64_text(b),
    ensures
        a == b,
{
    lemma_base64_round_trip(a);
    lemma_base64_round_trip(b);
}

/// `encode` of the engine `base64::engine::general_purpose::STANDARD`: the
/// result is the text of `bytes` in the standard alphabet, padded with `=`
/// to a multiple of four symbols. The call fails where the length of that
/// text does not fit a `usize`, which `requires` leaves out.
#[verifier::external_body]
pub(crate) fn standard_encode(bytes: &[u8]) -> (text: String)
    requires
        base64_len(bytes@.len()) <= usize::MAX,
    ensures
        text@ == base64_text(bytes@),
{
    base64::Engine::encode(&base64::engine::general_purpose::STANDARD, bytes)
}

} // verus!

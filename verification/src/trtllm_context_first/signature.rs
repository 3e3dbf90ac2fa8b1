//! The signature that a generation worker asks for where a handoff carries a
//! protected field.

use crate::text::{hex, hex_digit, hex_encode, join_two, law_hex_reads_back, lemma_hex_len, str_of, text_of};
use hmac::{Hmac, Mac};
use sha2::Sha256;
use vstd::prelude::*;

verus! {

/// The header that carries the signature.
pub const INTERNAL_DISAGG_AUTH_HEADER: &'static str = "x-trtllm-disagg-auth";

/// The fields that a worker refuses in a request without a signature.
pub const INTERNAL_DISAGG_AUTH_FIELDS: [&'static str; 2] = [
    "encoded_opaque_state",
    "ctx_info_endpoint",
];

/// The code that HMAC with SHA-256 gives to a message under a key.
pub uninterp spec fn hmac_code(key: Seq<u8>, message: Seq<u8>) -> Seq<u8>;

/// `hmac::Hmac` over `sha2::Sha256`, from `new_from_slice` on the key through
/// `update` with the message to the bytes of `finalize`.
///
/// A key of any length is taken, and the code is 32 bytes long.
#[verifier::external_body]
fn hmac_sha256(key: &[u8], message: &[u8]) -> (code: Option<Vec<u8>>)
    ensures
        code is Some,
        code->Some_0@ == hmac_code(key@, message@),
        code->Some_0@.len() == 32,
{
    let mut mac = Hmac::<Sha256>::new_from_slice(key).ok()?;
    mac.update(message);
    Some(mac.finalize().into_bytes().to_vec())
}

/// The digit that a number below sixteen is written as, in lower case.
pub open spec fn digit_byte(digit: int) -> u8 {
    if digit < 10 {
        (0x30 + digit) as u8
    } else {
        (0x61 + digit - 10) as u8
    }
}

/// A 16-bit unit as `\u` and four hexadecimal digits.
pub open spec fn escaped_unit(unit: int) -> Seq<u8> {
    seq![
        0x5cu8,
        0x75u8,
        digit_byte(unit / 0x1000),
        digit_byte(unit / 0x100 % 0x10),
        digit_byte(unit / 0x10 % 0x10),
        digit_byte(unit % 0x10),
    ]
}

/// The letter behind the backslash, for the characters that have one of their
/// own.
pub open spec fn short_escape(code: int) -> Option<u8> {
    if code == 0x22 || code == 0x5c {
        Some(code as u8)
    } else if code == 0x08 {
        Some(0x62u8)
    } else if code == 0x0c {
        Some(0x66u8)
    } else if code == 0x0a {
        Some(0x6eu8)
    } else if code == 0x0d {
        Some(0x72u8)
    } else if code == 0x09 {
        Some(0x74u8)
    } else {
        None
    }
}

/// A character within a JSON string of ASCII characters alone: as it is from
/// space to `~`, quote and backslash apart, and else as an escape. A character
/// above U+FFFF is written as a surrogate pair.
pub open spec fn escaped_char(c: char) -> Seq<u8> {
    let code = c as int;
    if short_escape(code) is Some {
        seq![0x5cu8, short_escape(code)->Some_0]
    } else if 0x20 <= code <= 0x7e {
        seq![code as u8]
    } else if code < 0x1_0000 {
        escaped_unit(code)
    } else {
        escaped_unit(0xd800 + (code - 0x1_0000) / 0x400) + escaped_unit(
            0xdc00 + (code - 0x1_0000) % 0x400,
        )
    }
}

/// The characters of a text, one behind the other.
pub open spec fn escaped(text: Seq<char>) -> Seq<u8>
    decreases text.len(),
{
    if text.len() == 0 {
        seq![]
    } else {
        escaped(text.drop_last()) + escaped_char(text.last())
    }
}

/// A text as a JSON string of ASCII characters alone.
pub open spec fn ascii_string(text: Seq<char>) -> Seq<u8> {
    seq![0x22u8] + escaped(text) + seq![0x22u8]
}

/// A text as a JSON string, or `null` where there is none.
pub open spec fn nullable(text: Option<Seq<char>>) -> Seq<u8> {
    match text {
        Some(text) => ascii_string(text),
        None => seq![0x6eu8, 0x75u8, 0x6cu8, 0x6cu8],
    }
}

/// The bytes that are signed: an object of both protected fields in ascending
/// order of their names, without white space and with ASCII characters alone.
/// A field that is missing is `null`.
pub open spec fn signed_bytes(
    encoded_opaque_state: Option<Seq<char>>,
    ctx_info_endpoint: Option<Seq<char>>,
) -> Seq<u8> {
    seq![0x7bu8] + ascii_string("ctx_info_endpoint"@) + seq![0x3au8] + nullable(ctx_info_endpoint)
        + seq![0x2cu8] + ascii_string("encoded_opaque_state"@) + seq![0x3au8] + nullable(
        encoded_opaque_state,
    ) + seq![0x7du8]
}

/// The signature of a handoff under a key, and none where it carries no
/// protected field.
pub open spec fn signature(
    key: Seq<u8>,
    encoded_opaque_state: Option<Seq<char>>,
    ctx_info_endpoint: Option<Seq<char>>,
) -> Option<Seq<char>> {
    if encoded_opaque_state is None && ctx_info_endpoint is None {
        None
    } else {
        Some(
            signature_of_code(
                hmac_code(key, signed_bytes(encoded_opaque_state, ctx_info_endpoint)),
            ),
        )
    }
}

/// A code as the text of a signature.
pub open spec fn signature_of_code(code: Seq<u8>) -> Seq<char> {
    "sha256="@ + hex(code)
}

/// Writes a code as a signature.
pub fn signature_text(code: &[u8]) -> (text: String)
    ensures
        text@ == signature_of_code(code@),
{
    join_two("sha256=", hex_encode(code).as_str())
}

/// Writes one hexadecimal digit.
fn push_digit(bytes: &mut Vec<u8>, digit: u32)
    requires
        digit < 16,
    ensures
        final(bytes)@ == old(bytes)@.push(digit_byte(digit as int)),
{
    if digit < 10 {
        bytes.push(0x30 + digit as u8);
    } else {
        bytes.push(0x61 + (digit - 10) as u8);
    }
}

/// Writes a 16-bit unit as an escape.
fn push_unit(bytes: &mut Vec<u8>, unit: u32)
    requires
        unit < 0x1_0000,
    ensures
        final(bytes)@ == old(bytes)@ + escaped_unit(unit as int),
{
    bytes.push(0x5c);
    bytes.push(0x75);
    push_digit(bytes, unit / 0x1000);
    push_digit(bytes, unit / 0x100 % 0x10);
    push_digit(bytes, unit / 0x10 % 0x10);
    push_digit(bytes, unit % 0x10);
    assert(bytes@ =~= old(bytes)@ + escaped_unit(unit as int));
}

/// Writes one character of a JSON string.
fn push_char(bytes: &mut Vec<u8>, c: char)
    ensures
        final(bytes)@ == old(bytes)@ + escaped_char(c),
{
    let code: u32 = c as u32;
    let letter: Option<u8> = match code {
        0x22 => Some(0x22),
        0x5c => Some(0x5c),
        0x08 => Some(0x62),
        0x0c => Some(0x66),
        0x0a => Some(0x6e),
        0x0d => Some(0x72),
        0x09 => Some(0x74),
        _ => None,
    };
    assert(letter == short_escape(c as int));
    match letter {
        Some(letter) => {
            bytes.push(0x5c);
            bytes.push(letter);
            assert(bytes@ =~= old(bytes)@ + escaped_char(c));
        },
        None => {
            if 0x20 <= code && code <= 0x7e {
                bytes.push(code as u8);
                assert(bytes@ =~= old(bytes)@ + escaped_char(c));
            } else if code < 0x1_0000 {
                push_unit(bytes, code);
            } else {
                push_unit(bytes, 0xd800 + (code - 0x1_0000) / 0x400);
                push_unit(bytes, 0xdc00 + (code - 0x1_0000) % 0x400);
                assert(bytes@ =~= old(bytes)@ + escaped_char(c));
            }
        },
    }
}

/// Writes a text as a JSON string.
fn push_string(bytes: &mut Vec<u8>, text: &str)
    ensures
        final(bytes)@ == old(bytes)@ + ascii_string(text@),
{
    let ghost before = bytes@;
    bytes.push(0x22);
    for c in letters: text.chars()
        invariant
            letters.seq() == text@,
            bytes@ == before.push(0x22) + escaped(text@.take(letters.index() as int)),
    {
        push_char(bytes, c);
        proof {
            let i = letters.index() as int;
            assert(text@.take(i + 1).drop_last() =~= text@.take(i));
            assert(bytes@ =~= before.push(0x22) + escaped(text@.take(i + 1)));
        }
    }
    bytes.push(0x22);
    assert(text@.take(text@.len() as int) =~= text@);
    assert(bytes@ =~= before + ascii_string(text@));
}

/// Writes a text as a JSON string, or `null`.
fn push_nullable(bytes: &mut Vec<u8>, text: Option<&str>)
    ensures
        final(bytes)@ == old(bytes)@ + nullable(str_of(text)),
{
    match text {
        Some(text) => push_string(bytes, text),
        None => {
            bytes.push(0x6e);
            bytes.push(0x75);
            bytes.push(0x6c);
            bytes.push(0x6c);
            assert(bytes@ =~= old(bytes)@ + nullable(None));
        },
    }
}

/// Writes the protected fields as they are signed.
pub fn canonical_payload(
    encoded_opaque_state: Option<&str>,
    ctx_info_endpoint: Option<&str>,
) -> (payload: Vec<u8>)
    ensures
        payload@ == signed_bytes(str_of(encoded_opaque_state), str_of(ctx_info_endpoint)),
{
    let mut payload: Vec<u8> = Vec::new();
    payload.push(0x7b);
    push_string(&mut payload, "ctx_info_endpoint");
    payload.push(0x3a);
    push_nullable(&mut payload, ctx_info_endpoint);
    payload.push(0x2c);
    push_string(&mut payload, "encoded_opaque_state");
    payload.push(0x3a);
    push_nullable(&mut payload, encoded_opaque_state);
    payload.push(0x7d);
    assert(payload@ =~= signed_bytes(str_of(encoded_opaque_state), str_of(ctx_info_endpoint)));
    payload
}

/// Signs the protected fields of a handoff.
pub fn sign_disagg_handoff(
    key: &[u8],
    encoded_opaque_state: Option<&str>,
    ctx_info_endpoint: Option<&str>,
) -> (signed: Option<String>)
    ensures
        text_of(signed) == signature(key@, str_of(encoded_opaque_state), str_of(ctx_info_endpoint)),
        signed is Some ==> signed->Some_0@.len() == 71,
{
    if encoded_opaque_state.is_none() && ctx_info_endpoint.is_none() {
        return None;
    }
    let payload = canonical_payload(encoded_opaque_state, ctx_info_endpoint);
    match hmac_sha256(key, payload.as_slice()) {
        Some(code) => {
            proof {
                reveal_strlit("sha256=");
                lemma_hex_len(code@);
            }
            Some(signature_text(code.as_slice()))
        },
        None => None,
    }
}

/// The first character of a text is written first.
proof fn lemma_escaped_front(text: Seq<char>)
    requires
        text.len() > 0,
    ensures
        escaped(text) == escaped_char(text.first()) + escaped(text.drop_first()),
    decreases text.len(),
{
    if text.len() == 1 {
        assert(text.drop_last() =~= Seq::<char>::empty());
        assert(text.drop_first() =~= Seq::<char>::empty());
        assert(escaped(text.drop_last()) =~= Seq::<u8>::empty());
        assert(escaped(text) =~= escaped_char(text.first()) + escaped(text.drop_first()));
    } else {
        lemma_escaped_front(text.drop_last());
        assert(text.drop_last().drop_first() =~= text.drop_first().drop_last());
        assert(text.drop_first().last() == text.last());
        assert(escaped(text) =~= escaped_char(text.first()) + escaped(text.drop_first()));
    }
}

/// A unit can be read off its escape.
proof fn lemma_unit_reads_back(a: int, b: int)
    requires
        0 <= a < 0x1_0000,
        0 <= b < 0x1_0000,
        escaped_unit(a) == escaped_unit(b),
    ensures
        a == b,
{
    assert(escaped_unit(a)[2] == escaped_unit(b)[2]);
    assert(escaped_unit(a)[3] == escaped_unit(b)[3]);
    assert(escaped_unit(a)[4] == escaped_unit(b)[4]);
    assert(escaped_unit(a)[5] == escaped_unit(b)[5]);
    assert(a / 0x1000 == b / 0x1000);
    assert(a / 0x100 % 0x10 == b / 0x100 % 0x10);
    assert(a / 0x10 % 0x10 == b / 0x10 % 0x10);
    assert(a % 0x10 == b % 0x10);
}

/// What is written first decides what was written: no character's form starts
/// another's.
proof fn lemma_char_reads_back(a: char, b: char, x: Seq<u8>, y: Seq<u8>)
    requires
        escaped_char(a) + x == escaped_char(b) + y,
    ensures
        a == b,
        x == y,
{
    let whole = escaped_char(a) + x;
    let left = escaped_char(a);
    let right = escaped_char(b);
    assert(whole[0] == left[0] && whole[0] == right[0]);
    if left[0] == 0x5c {
        assert(whole[1] == left[1] && whole[1] == right[1]);
        if left[1] == 0x75 {
            let first = whole.take(6);
            assert(left.take(6) =~= first && right.take(6) =~= first);
            let (m, n) = (first_unit(a), first_unit(b));
            assert(left.take(6) =~= escaped_unit(m));
            assert(right.take(6) =~= escaped_unit(n));
            lemma_unit_reads_back(m, n);
            if a as int >= 0x1_0000 {
                let second = whole.subrange(6, 12);
                assert(left.subrange(6, 12) =~= second && right.subrange(6, 12) =~= second);
                let low = 0xdc00 + (a as int - 0x1_0000) % 0x400;
                let other = 0xdc00 + (b as int - 0x1_0000) % 0x400;
                assert(left.subrange(6, 12) =~= escaped_unit(low));
                assert(right.subrange(6, 12) =~= escaped_unit(other));
                lemma_unit_reads_back(low, other);
            }
        }
    }
    assert(a == b);
    assert(x =~= whole.skip(left.len() as int));
    assert(y =~= whole.skip(right.len() as int));
}

/// The first unit of a character that is written as a unit or two.
spec fn first_unit(c: char) -> int {
    let code = c as int;
    if code < 0x1_0000 {
        code
    } else {
        0xd800 + (code - 0x1_0000) / 0x400
    }
}

/// Four runs of bytes, grouped behind the first.
proof fn lemma_regroup(a: Seq<u8>, b: Seq<u8>, c: Seq<u8>, d: Seq<u8>)
    ensures
        a + b + c + d == a + (b + c + d),
{
    assert(a + b + c + d =~= a + (b + c + d));
}

/// What follows the same beginning is the same.
proof fn lemma_same_rest(head: Seq<u8>, x: Seq<u8>, y: Seq<u8>)
    requires
        head + x == head + y,
    ensures
        x == y,
{
    assert(x =~= (head + x).skip(head.len() as int));
    assert(y =~= (head + y).skip(head.len() as int));
}

/// No character's form is empty or starts with a quote.
proof fn lemma_char_is_no_quote(c: char, rest: Seq<u8>)
    ensures
        escaped_char(c).len() > 0,
        (escaped_char(c) + rest)[0] != 0x22,
{
}

/// A text can be read off its form up to the quote that ends it.
proof fn lemma_text_reads_back(a: Seq<char>, b: Seq<char>, x: Seq<u8>, y: Seq<u8>)
    requires
        escaped(a) + seq![0x22u8] + x == escaped(b) + seq![0x22u8] + y,
    ensures
        a == b,
        x == y,
    decreases a.len(),
{
    let quote = seq![0x22u8];
    if a.len() > 0 {
        let rest = escaped(a.drop_first()) + quote + x;
        lemma_escaped_front(a);
        lemma_regroup(escaped_char(a.first()), escaped(a.drop_first()), quote, x);
        lemma_char_is_no_quote(a.first(), rest);
        if b.len() > 0 {
            let other = escaped(b.drop_first()) + quote + y;
            lemma_escaped_front(b);
            lemma_regroup(escaped_char(b.first()), escaped(b.drop_first()), quote, y);
            lemma_char_reads_back(a.first(), b.first(), rest, other);
            lemma_text_reads_back(a.drop_first(), b.drop_first(), x, y);
            assert(a =~= seq![a.first()] + a.drop_first());
            assert(b =~= seq![b.first()] + b.drop_first());
        } else {
            assert((escaped(b) + quote + y)[0] == 0x22);
        }
    } else if b.len() > 0 {
        let other = escaped(b.drop_first()) + quote + y;
        lemma_escaped_front(b);
        lemma_regroup(escaped_char(b.first()), escaped(b.drop_first()), quote, y);
        lemma_char_is_no_quote(b.first(), other);
        assert((escaped(a) + quote + x)[0] == 0x22);
    } else {
        assert(a =~= b);
        lemma_same_rest(escaped(a) + quote, x, y);
    }
}

/// A field can be read off its form, whatever follows.
proof fn lemma_nullable_reads_back(
    a: Option<Seq<char>>,
    b: Option<Seq<char>>,
    x: Seq<u8>,
    y: Seq<u8>,
)
    requires
        nullable(a) + x == nullable(b) + y,
    ensures
        a == b,
        x == y,
{
    let whole = nullable(a) + x;
    assert(whole[0] == nullable(a)[0] && whole[0] == nullable(b)[0]);
    match (a, b) {
        (Some(first), Some(second)) => {
            assert(whole.skip(1) =~= escaped(first) + seq![0x22u8] + x);
            assert((nullable(b) + y).skip(1) =~= escaped(second) + seq![0x22u8] + y);
            lemma_text_reads_back(first, second, x, y);
        },
        _ => {
            assert(x =~= whole.skip(4));
            assert(y =~= whole.skip(4));
        },
    }
}

/// Whatever changes in a protected field changes the bytes that are signed.
pub proof fn law_signed_bytes_tell_handoffs_apart(
    encoded_opaque_state: Option<Seq<char>>,
    ctx_info_endpoint: Option<Seq<char>>,
    other_state: Option<Seq<char>>,
    other_endpoint: Option<Seq<char>>,
)
    requires
        signed_bytes(encoded_opaque_state, ctx_info_endpoint) == signed_bytes(
            other_state,
            other_endpoint,
        ),
    ensures
        encoded_opaque_state == other_state,
        ctx_info_endpoint == other_endpoint,
{
    let head = seq![0x7bu8] + ascii_string("ctx_info_endpoint"@) + seq![0x3au8];
    let name = ascii_string("encoded_opaque_state"@);
    let state = nullable(encoded_opaque_state);
    let other = nullable(other_state);
    lemma_grouping(head, nullable(ctx_info_endpoint), name, state);
    lemma_grouping(head, nullable(other_endpoint), name, other);
    let x = seq![0x2cu8] + name + seq![0x3au8] + (state + seq![0x7du8]);
    let y = seq![0x2cu8] + name + seq![0x3au8] + (other + seq![0x7du8]);
    lemma_same_rest(head, nullable(ctx_info_endpoint) + x, nullable(other_endpoint) + y);
    lemma_nullable_reads_back(ctx_info_endpoint, other_endpoint, x, y);
    lemma_same_rest(
        seq![0x2cu8] + name + seq![0x3au8],
        state + seq![0x7du8],
        other + seq![0x7du8],
    );
    lemma_nullable_reads_back(encoded_opaque_state, other_state, seq![0x7du8], seq![0x7du8]);
}

/// The parts of the signed bytes, grouped behind each field.
proof fn lemma_grouping(head: Seq<u8>, endpoint: Seq<u8>, name: Seq<u8>, state: Seq<u8>)
    ensures
        head + endpoint + seq![0x2cu8] + name + seq![0x3au8] + state + seq![0x7du8] == head + (
        endpoint + (seq![0x2cu8] + name + seq![0x3au8] + (state + seq![0x7du8]))),
{
    assert(head + endpoint + seq![0x2cu8] + name + seq![0x3au8] + state + seq![0x7du8] =~= head + (
    endpoint + (seq![0x2cu8] + name + seq![0x3au8] + (state + seq![0x7du8]))));
}

/// The value of a hexadecimal digit in lower case.
pub open spec fn digit_value(byte: u8) -> Option<int> {
    if 0x30 <= byte <= 0x39 {
        Some(byte - 0x30)
    } else if 0x61 <= byte <= 0x66 {
        Some(byte - 0x57)
    } else {
        None
    }
}

/// The unit that a reader of JSON finds in an escape at a place.
pub open spec fn unit_at(bytes: Seq<u8>, at: int) -> Option<int> {
    if at + 6 <= bytes.len() && bytes[at] == 0x5c && bytes[at + 1] == 0x75 {
        match (
            digit_value(bytes[at + 2]),
            digit_value(bytes[at + 3]),
            digit_value(bytes[at + 4]),
            digit_value(bytes[at + 5]),
        ) {
            (Some(a), Some(b), Some(c), Some(d)) => Some(((a * 16 + b) * 16 + c) * 16 + d),
            _ => None,
        }
    } else {
        None
    }
}

/// The code of the first character that a reader of JSON finds within a string,
/// and the number of bytes that it stands in.
pub open spec fn first_char(bytes: Seq<u8>) -> Option<(int, int)> {
    if bytes.len() == 0 || bytes[0] < 0x20 || bytes[0] > 0x7e || bytes[0] == 0x22 {
        None
    } else if bytes[0] != 0x5c {
        Some((bytes[0] as int, 1))
    } else if bytes.len() < 2 {
        None
    } else if bytes[1] == 0x75 {
        match unit_at(bytes, 0) {
            Some(unit) => if 0xd800 <= unit <= 0xdbff {
                match unit_at(bytes, 6) {
                    Some(low) => Some((0x1_0000 + (unit - 0xd800) * 0x400 + (low - 0xdc00), 12)),
                    None => None,
                }
            } else {
                Some((unit, 6))
            },
            None => None,
        }
    } else if bytes[1] == 0x22 || bytes[1] == 0x5c || bytes[1] == 0x2f {
        Some((bytes[1] as int, 2))
    } else if bytes[1] == 0x62 {
        Some((0x08, 2))
    } else if bytes[1] == 0x66 {
        Some((0x0c, 2))
    } else if bytes[1] == 0x6e {
        Some((0x0a, 2))
    } else if bytes[1] == 0x72 {
        Some((0x0d, 2))
    } else if bytes[1] == 0x74 {
        Some((0x09, 2))
    } else {
        None
    }
}

proof fn lemma_unit_at(unit: int, head: Seq<u8>, rest: Seq<u8>)
    requires
        0 <= unit < 0x1_0000,
    ensures
        unit_at(head + escaped_unit(unit) + rest, head.len() as int) == Some(unit),
{
    let bytes = head + escaped_unit(unit) + rest;
    let at = head.len() as int;
    assert(forall|i: int| 0 <= i < 6 ==> bytes[at + i] == #[trigger] escaped_unit(unit)[i]);
    assert(bytes[at] == escaped_unit(unit)[0]);
    assert(bytes[at + 1] == escaped_unit(unit)[1]);
    assert(bytes[at + 2] == escaped_unit(unit)[2]);
    assert(bytes[at + 3] == escaped_unit(unit)[3]);
    assert(bytes[at + 4] == escaped_unit(unit)[4]);
    assert(bytes[at + 5] == escaped_unit(unit)[5]);
}

proof fn lemma_reads_a_unit(unit: int, rest: Seq<u8>)
    requires
        0 <= unit < 0x1_0000,
        !(0xd800 <= unit <= 0xdbff),
    ensures
        first_char(escaped_unit(unit) + rest) == Some((unit, 6int)),
{
    let none = Seq::<u8>::empty();
    let bytes = escaped_unit(unit) + rest;
    lemma_unit_at(unit, none, rest);
    assert(none + escaped_unit(unit) + rest =~= bytes);
    assert(bytes[0] == 0x5c && bytes[1] == 0x75);
}

proof fn lemma_reads_a_pair(high: int, low: int, rest: Seq<u8>)
    requires
        0xd800 <= high <= 0xdbff,
        0xdc00 <= low <= 0xdfff,
    ensures
        first_char(escaped_unit(high) + escaped_unit(low) + rest) == Some(
            (0x1_0000 + (high - 0xd800) * 0x400 + (low - 0xdc00), 12int),
        ),
{
    let none = Seq::<u8>::empty();
    let bytes = escaped_unit(high) + escaped_unit(low) + rest;
    lemma_unit_at(high, none, escaped_unit(low) + rest);
    lemma_unit_at(low, escaped_unit(high), rest);
    assert(none + escaped_unit(high) + (escaped_unit(low) + rest) =~= bytes);
    assert(bytes[0] == 0x5c && bytes[1] == 0x75);
}

proof fn lemma_reads_a_short_escape(code: int, rest: Seq<u8>)
    requires
        short_escape(code) is Some,
    ensures
        first_char(seq![0x5cu8, short_escape(code)->Some_0] + rest) == Some((code, 2int)),
{
    let bytes = seq![0x5cu8, short_escape(code)->Some_0] + rest;
    assert(bytes[0] == 0x5c && bytes[1] == short_escape(code)->Some_0);
}

/// A reader of JSON finds each character where it was written and behind it the
/// rest.
pub proof fn law_escapes_read_back(c: char, rest: Seq<u8>)
    ensures
        first_char(escaped_char(c) + rest) == Some((c as int, escaped_char(c).len() as int)),
{
    let code = c as int;
    if short_escape(code) is Some {
        lemma_reads_a_short_escape(code, rest);
    } else if 0x20 <= code <= 0x7e {
        assert((escaped_char(c) + rest)[0] == code);
    } else if code < 0x1_0000 {
        lemma_reads_a_unit(code, rest);
    } else {
        let high = 0xd800 + (code - 0x1_0000) / 0x400;
        let low = 0xdc00 + (code - 0x1_0000) % 0x400;
        lemma_reads_a_pair(high, low, rest);
        assert((code - 0x1_0000) / 0x400 * 0x400 + (code - 0x1_0000) % 0x400 == code - 0x1_0000);
    }
}

/// A printable ASCII character other than quote and backslash stands for itself.
pub proof fn law_printable_characters_stay(c: char)
    requires
        ' ' <= c <= '~',
        c != '"' && c != '\\',
    ensures
        escaped_char(c).len() == 1,
        escaped_char(c)[0] == c as int,
{
}

/// Whatever the fields hold, only printable ASCII characters are signed.
pub proof fn law_only_printable_ascii_is_signed(
    encoded_opaque_state: Option<Seq<char>>,
    ctx_info_endpoint: Option<Seq<char>>,
    i: int,
)
    requires
        0 <= i < signed_bytes(encoded_opaque_state, ctx_info_endpoint).len(),
    ensures
        0x20 <= signed_bytes(encoded_opaque_state, ctx_info_endpoint)[i] <= 0x7e,
{
    lemma_printable("ctx_info_endpoint"@);
    lemma_printable("encoded_opaque_state"@);
    if ctx_info_endpoint is Some {
        lemma_printable(ctx_info_endpoint->Some_0);
    }
    if encoded_opaque_state is Some {
        lemma_printable(encoded_opaque_state->Some_0);
    }
    let head = seq![0x7bu8] + ascii_string("ctx_info_endpoint"@) + seq![0x3au8];
    let name = ascii_string("encoded_opaque_state"@);
    assert(all_printable(nullable(ctx_info_endpoint)));
    assert(all_printable(nullable(encoded_opaque_state)));
    lemma_join_printable(seq![0x7bu8], ascii_string("ctx_info_endpoint"@));
    lemma_join_printable(seq![0x7bu8] + ascii_string("ctx_info_endpoint"@), seq![0x3au8]);
    let one = head + nullable(ctx_info_endpoint);
    lemma_join_printable(head, nullable(ctx_info_endpoint));
    lemma_join_printable(one, seq![0x2cu8]);
    let two = one + seq![0x2cu8];
    lemma_join_printable(two, name);
    lemma_join_printable(two + name, seq![0x3au8]);
    let three = two + name + seq![0x3au8];
    lemma_join_printable(three, nullable(encoded_opaque_state));
    lemma_join_printable(three + nullable(encoded_opaque_state), seq![0x7du8]);
}

spec fn all_printable(bytes: Seq<u8>) -> bool {
    forall|i: int| 0 <= i < bytes.len() ==> 0x20 <= #[trigger] bytes[i] <= 0x7e
}

proof fn lemma_join_printable(a: Seq<u8>, b: Seq<u8>)
    requires
        all_printable(a),
        all_printable(b),
    ensures
        all_printable(a + b),
{
}

proof fn lemma_printable(text: Seq<char>)
    ensures
        all_printable(escaped(text)),
        all_printable(ascii_string(text)),
    decreases text.len(),
{
    if text.len() > 0 {
        lemma_printable(text.drop_last());
        lemma_char_printable(text.last());
        lemma_join_printable(escaped(text.drop_last()), escaped_char(text.last()));
    }
    lemma_join_printable(seq![0x22u8], escaped(text));
    lemma_join_printable(seq![0x22u8] + escaped(text), seq![0x22u8]);
}

proof fn lemma_char_printable(c: char)
    ensures
        all_printable(escaped_char(c)),
{
}

/// The signature of a code is longer than it by its mark and one digit to each half
/// byte, and each two digits are the byte that they stand for.
pub proof fn law_signature_spells_the_code(code: Seq<u8>, i: int)
    requires
        0 <= i < code.len(),
    ensures
        signature_of_code(code).len() == 7 + 2 * code.len(),
        signature_of_code(code).take(7) == "sha256="@,
        hex_digit(signature_of_code(code)[7 + 2 * i]) * 16 + hex_digit(
            signature_of_code(code)[7 + 2 * i + 1],
        ) == code[i],
{
    reveal_strlit("sha256=");
    law_hex_reads_back(code, i);
    assert(signature_of_code(code).take(7) =~= "sha256="@);
}

} // verus!

//! Base64 with the standard alphabet and padding.

use vstd::prelude::*;
use base64::Engine;

verus! {

/// The sixty-four symbols, in the order of the values they stand for.
pub open spec fn alphabet() -> Seq<char> {
    "ABCDEFGHIJKLMNOPQRSTUVWXYZabcdefghijklmnopqrstuvwxyz0123456789+/"@
}

/// The symbol for a six-bit value.
pub open spec fn symbol(value: int) -> char {
    alphabet()[value]
}

/// The four symbols that stand for the three bytes `a`, `b`, `c`.
pub open spec fn quad(a: int, b: int, c: int) -> Seq<char> {
    seq![
        symbol(a / 4),
        symbol(a % 4 * 16 + b / 16),
        symbol(b % 16 * 4 + c / 64),
        symbol(c % 64),
    ]
}

/// The padded base64 text of `bytes`: four symbols for every three bytes, and
/// a last group filled up with `=` where one or two bytes are left.
pub open spec fn base64_text(bytes: Seq<u8>) -> Seq<char>
    decreases bytes.len(),
{
    if bytes.len() == 0 {
        Seq::empty()
    } else if bytes.len() == 1 {
        quad(bytes[0] as int, 0, 0).take(2) + seq!['=', '=']
    } else if bytes.len() == 2 {
        quad(bytes[0] as int, bytes[1] as int, 0).take(3) + seq!['=']
    } else {
        quad(bytes[0] as int, bytes[1] as int, bytes[2] as int) + base64_text(bytes.skip(3))
    }
}

/// `text` is the base64 text of some bytes.
pub open spec fn is_base64(text: Seq<char>) -> bool {
    exists|bytes: Seq<u8>| base64_text(bytes) == text
}

/// The bytes that `text` is the base64 text of.
pub open spec fn base64_bytes(text: Seq<char>) -> Seq<u8>
    recommends
        is_base64(text),
{
    choose|bytes: Seq<u8>| base64_text(bytes) == text
}

/// The value that a symbol of the alphabet stands for, by its code point.
pub open spec fn symbol_code(value: int) -> int {
    if value < 26 {
        'A' as int + value
    } else if value < 52 {
        'a' as int + value - 26
    } else if value < 62 {
        '0' as int + value - 52
    } else if value == 62 {
        '+' as int
    } else {
        '/' as int
    }
}

/// The alphabet runs through the capitals, the small letters and the digits,
/// and ends with `+` and `/`.
pub proof fn lemma_symbol_code(value: int)
    requires
        0 <= value < 64,
    ensures
        symbol(value) as int == symbol_code(value),
{
    reveal_strlit("ABCDEFGHIJKLMNOPQRSTUVWXYZabcdefghijklmnopqrstuvwxyz0123456789+/");
}

/// Different values have different symbols, and none of them is `=` or a backslash.
pub proof fn lemma_symbols_distinct(v: int, w: int)
    requires
        0 <= v < 64,
        0 <= w < 64,
    ensures
        symbol(v) == symbol(w) ==> v == w,
        symbol(v) != '=',
        symbol(v) != '\\',
{
    lemma_symbol_code(v);
    lemma_symbol_code(w);
}

/// The text has four characters for every three bytes begun.
pub proof fn lemma_base64_text_len(bytes: Seq<u8>)
    ensures
        base64_text(bytes).len() == (bytes.len() + 2) / 3 * 4,
    decreases bytes.len(),
{
    if bytes.len() >= 3 {
        lemma_base64_text_len(bytes.skip(3));
    }
}

/// Every character of a base64 text is a symbol of the alphabet or `=`.
pub proof fn lemma_base64_text_chars(bytes: Seq<u8>, i: int)
    requires
        0 <= i < base64_text(bytes).len(),
    ensures
        base64_text(bytes)[i] == '=' || exists|v: int|
            0 <= v < 64 && base64_text(bytes)[i] == symbol(v),
    decreases bytes.len(),
{
    let c = base64_text(bytes)[i];
    let b0 = bytes[0] as int;
    let b1 = if bytes.len() >= 2 { bytes[1] as int } else { 0 };
    let b2 = if bytes.len() >= 3 { bytes[2] as int } else { 0 };
    if i < 4 && i <= bytes.len() {
        assert(c == symbol(b0 / 4) || c == symbol(b0 % 4 * 16 + b1 / 16) || c == symbol(
            b1 % 16 * 4 + b2 / 64,
        ) || c == symbol(b2 % 64));
    } else if i >= 4 {
        lemma_base64_text_chars(bytes.skip(3), i - 4);
    }
}

/// Two byte strings with the same base64 text are equal.
pub proof fn lemma_base64_text_injective(a: Seq<u8>, b: Seq<u8>)
    requires
        base64_text(a) == base64_text(b),
    ensures
        a == b,
    decreases a.len(),
{
    lemma_base64_text_len(a);
    lemma_base64_text_len(b);
    let t = base64_text(a);
    if a.len() > 0 {
        let a1 = if a.len() >= 2 { a[1] as int } else { 0 };
        let a2 = if a.len() >= 3 { a[2] as int } else { 0 };
        let b1 = if b.len() >= 2 { b[1] as int } else { 0 };
        let b2 = if b.len() >= 3 { b[2] as int } else { 0 };
        let qa = quad(a[0] as int, a1, a2);
        let qb = quad(b[0] as int, b1, b2);
        lemma_symbols_distinct(a[0] as int / 4, b[0] as int / 4);
        lemma_symbols_distinct(a[0] as int % 4 * 16 + a1 / 16, b[0] as int % 4 * 16 + b1 / 16);
        lemma_symbols_distinct(a1 % 16 * 4 + a2 / 64, b1 % 16 * 4 + b2 / 64);
        lemma_symbols_distinct(b1 % 16 * 4 + b2 / 64, a1 % 16 * 4 + a2 / 64);
        lemma_symbols_distinct(a2 % 64, b2 % 64);
        lemma_symbols_distinct(b2 % 64, a2 % 64);
        assert(t[0] == qa[0] && t[0] == qb[0]);
        assert(t[1] == qa[1] && t[1] == qb[1]);
        assert(t[2] == (if a.len() >= 2 { qa[2] } else { '=' }));
        assert(t[2] == (if b.len() >= 2 { qb[2] } else { '=' }));
        assert(t[3] == (if a.len() >= 3 { qa[3] } else { '=' }));
        assert(t[3] == (if b.len() >= 3 { qb[3] } else { '=' }));
        assert(a.len() == b.len() || (a.len() >= 3 && b.len() >= 3));
        if a.len() >= 3 {
            assert(base64_text(a.skip(3)) =~= t.skip(4));
            assert(base64_text(b.skip(3)) =~= t.skip(4));
            lemma_base64_text_injective(a.skip(3), b.skip(3));
            assert(a =~= a.take(3) + a.skip(3));
            assert(b =~= b.take(3) + b.skip(3));
            assert(a.take(3) =~= b.take(3));
        }
    }
    assert(a =~= b);
}

/// `base64::DecodeError`: why the engine refused a text. Nothing is read
/// from it; it only tells a refusal from a result.
#[verifier::external_type_specification]
#[verifier::external_body]
pub struct ExDecodeError(base64::DecodeError);

/// `base64::Engine::encode` on `base64::prelude::BASE64_STANDARD`: the result
/// is the padded standard-alphabet text of the input. The call panics where
/// the length of that text does not fit in `usize`, so such inputs are left out.
#[verifier::external_body]
pub(crate) fn base64_encode(bytes: &[u8]) -> (text: String)
    requires
        (bytes@.len() + 2) / 3 * 4 <= usize::MAX,
    ensures
        text@ == base64_text(bytes@),
{
    base64::prelude::BASE64_STANDARD.encode(bytes)
}

/// `base64::Engine::decode` on `base64::prelude::BASE64_STANDARD`, given the
/// characters as a string: the engine asks for canonical padding and refuses
/// stray trailing bits, so it accepts exactly the texts that encoding
/// produces and gives back the bytes that they were made from.
#[verifier::external_body]
pub(crate) fn base64_decode(text: &[char]) -> (r: Result<Vec<u8>, base64::DecodeError>)
    ensures
        match r {
            Ok(bytes) => text@ == base64_text(bytes@),
            Err(_) => forall|bytes: Seq<u8>| #[trigger] base64_text(bytes) != text@,
        },
{
    let input: String = text.iter().collect();
    base64::prelude::BASE64_STANDARD.decode(input)
}

} // verus!

//! Credential encryption: key material as the portal delivers it, the public
//! key made of it, and PKCS#1 v1.5 encryption under that key.

use vstd::prelude::*;
use vstd::arithmetic::power::pow;
use num_bigint_dig::BigUint;
use rand::rngs::OsRng;
use rsa::Pkcs1v15Encrypt;
use crate::codec::base64_bytes;
use crate::codec::base64_decode;
use crate::codec::base64_encode;
use crate::codec::base64_text;
use crate::codec::is_base64;
use crate::codec::lemma_base64_text_chars;
use crate::codec::lemma_base64_text_injective;
use crate::codec::lemma_symbols_distinct;
use crate::codec::symbol;
use crate::error::KeyField;
use crate::error::LoginError;
use crate::error::LoginErrorView;
use crate::error::text_outcome;
use crate::number::be_value;
use crate::number::bit_len;
use crate::number::byte_len;
use crate::text::chars_of;

verus! {

/// `field` with every `\/` replaced by `/`, read from the left.
pub open spec fn unescape(field: Seq<char>) -> Seq<char>
    decreases field.len(),
{
    if field.len() == 0 {
        field
    } else if field.len() >= 2 && field[0] == '\\' && field[1] == '/' {
        seq!['/'] + unescape(field.skip(2))
    } else {
        seq![field[0]] + unescape(field.skip(1))
    }
}

/// The bytes that a field of the key material stands for, where its
/// unescaped text is base64.
pub open spec fn key_field_bytes(field: Seq<char>) -> Option<Seq<u8>> {
    if is_base64(unescape(field)) {
        Some(base64_bytes(unescape(field)))
    } else {
        None
    }
}

/// The number that a field of the key material stands for: its bytes read
/// as big-endian digits.
pub open spec fn key_field_number(field: Seq<char>) -> Option<nat> {
    match key_field_bytes(field) {
        Some(bytes) => Some(be_value(bytes)),
        None => None,
    }
}

/// `text` with every `/` written as `\/`.
pub open spec fn escape(text: Seq<char>) -> Seq<char>
    decreases text.len(),
{
    if text.len() == 0 {
        text
    } else if text[0] == '/' {
        seq!['\\', '/'] + escape(text.skip(1))
    } else {
        seq![text[0]] + escape(text.skip(1))
    }
}

/// `text` holds no backslash.
pub open spec fn has_no_backslash(text: Seq<char>) -> bool {
    forall|i: int| 0 <= i < text.len() ==> text[i] != '\\'
}

/// A text without a backslash is its own unescaped form.
pub proof fn lemma_unescape_plain(text: Seq<char>)
    requires
        has_no_backslash(text),
    ensures
        unescape(text) == text,
    decreases text.len(),
{
    if text.len() > 0 {
        assert(has_no_backslash(text.skip(1))) by {
            assert forall|i: int| 0 <= i < text.skip(1).len() implies text.skip(1)[i] != '\\' by {
            }
        }
        lemma_unescape_plain(text.skip(1));
    }
}

/// Unescaping undoes escaping, where the text held no backslash before.
pub proof fn lemma_unescape_escape(text: Seq<char>)
    requires
        has_no_backslash(text),
    ensures
        unescape(escape(text)) == text,
    decreases text.len(),
{
    if text.len() > 0 {
        let rest = text.skip(1);
        assert(has_no_backslash(rest)) by {
            assert forall|i: int| 0 <= i < rest.len() implies rest[i] != '\\' by {
            }
        }
        lemma_unescape_escape(rest);
        let escaped = escape(text);
        if text[0] == '/' {
            assert(escaped.skip(2) =~= escape(rest));
        } else {
            assert(escaped.skip(1) =~= escape(rest));
        }
    }
}

/// Base64 text holds no backslash.
pub proof fn lemma_base64_has_no_backslash(bytes: Seq<u8>)
    ensures
        has_no_backslash(base64_text(bytes)),
{
    let text = base64_text(bytes);
    assert forall|i: int| 0 <= i < text.len() implies text[i] != '\\' by {
        lemma_base64_text_chars(bytes, i);
        if text[i] != '=' {
            let v = choose|v: int| 0 <= v < 64 && text[i] == symbol(v);
            lemma_symbols_distinct(v, v);
        }
    }
}

/// A field whose unescaped text is base64 decodes to the same bytes, and so
/// to the same number, as that unescaped text does when it is the field.
pub proof fn lemma_escaped_field_decodes_alike(field: Seq<char>)
    requires
        is_base64(unescape(field)),
    ensures
        key_field_bytes(field) is Some,
        key_field_bytes(field) == key_field_bytes(unescape(field)),
        key_field_number(field) == key_field_number(unescape(field)),
{
    let text = unescape(field);
    let bytes = base64_bytes(text);
    lemma_base64_has_no_backslash(bytes);
    lemma_unescape_plain(text);
}

/// The base64 text of `bytes` decodes to `bytes`, with its slashes escaped
/// or as it is.
pub proof fn lemma_key_field_round_trip(bytes: Seq<u8>)
    ensures
        key_field_bytes(base64_text(bytes)) == Some(bytes),
        key_field_bytes(escape(base64_text(bytes))) == Some(bytes),
{
    let text = base64_text(bytes);
    lemma_base64_has_no_backslash(bytes);
    lemma_unescape_plain(text);
    lemma_unescape_escape(text);
    lemma_base64_text_injective(bytes, base64_bytes(text));
}

/// Replaces every `\/` by `/`.
pub fn unescape_slashes(field: &[char]) -> (out: Vec<char>)
    ensures
        out@ == unescape(field@),
{
    let mut out: Vec<char> = Vec::new();
    let mut i: usize = 0;
    assert(field@.skip(0) == field@);
    while i < field.len()
        invariant
            i <= field.len(),
            out@ + unescape(field@.skip(i as int)) == unescape(field@),
        decreases field.len() - i,
    {
        let ghost rest = field@.skip(i as int);
        if field[i] == '\\' && i + 1 < field.len() && field[i + 1] == '/' {
            assert(rest.skip(2) == field@.skip(i + 2));
            out.push('/');
            i += 2;
        } else {
            assert(rest.skip(1) == field@.skip(i + 1));
            out.push(field[i]);
            i += 1;
        }
    }
    out
}

/// Decodes one field of the key material: `\/` becomes `/`, and the result
/// is read as base64. The bytes are the big-endian digits of the number.
pub fn decode_key_field(which: KeyField, field: &str) -> (r: Result<Vec<u8>, LoginError>)
    ensures
        match key_field_bytes(field@) {
            Some(bytes) => r matches Ok(found) && found@ == bytes,
            None => r matches Err(e) && e@ == LoginErrorView::Decode(which),
        },
        r matches Ok(found) ==> key_field_number(field@) == Some(be_value(found@)),
{
    let chars = chars_of(field);
    let text = unescape_slashes(chars.as_slice());
    match base64_decode(text.as_slice()) {
        Ok(bytes) => {
            proof {
                lemma_base64_text_injective(bytes@, base64_bytes(text@));
            }
            Ok(bytes)
        },
        Err(_) => Err(LoginError::Decode(which)),
    }
}

/// The pairs of modulus and exponent that make a public key: a modulus of at
/// most 4096 bits, both numbers odd, and an exponent of at least 2 and at most
/// 2^33 - 1 that is smaller than the modulus.
pub open spec fn acceptable_key(n: nat, e: nat) -> bool {
    &&& bit_len(n) <= 4096
    &&& n % 2 == 1
    &&& e % 2 == 1
    &&& 2 <= e <= 0x1_ffff_ffff
    &&& e < n
}

/// An RSA public key: modulus and exponent as big-endian bytes.
#[derive(Debug)]
pub struct PublicKey {
    modulus: Vec<u8>,
    exponent: Vec<u8>,
}

/// `rsa::errors::Error`: why the crate refused a key or a message. Nothing
/// is read from it; it only tells a refusal from a result.
#[verifier::external_type_specification]
#[verifier::external_body]
pub struct ExRsaError(rsa::errors::Error);

/// `rsa::RsaPublicKey::new` on the numbers that the bytes spell, reduced to
/// its error: it accepts a pair exactly when the modulus has at most 4096 bits
/// and is odd, and the exponent is odd, at least 2, at most 2^33 - 1 and
/// smaller than the modulus.
#[verifier::external_body]
fn rsa_key_refusal(modulus: &[u8], exponent: &[u8]) -> (refusal: Option<rsa::errors::Error>)
    ensures
        refusal is None <==> acceptable_key(be_value(modulus@), be_value(exponent@)),
{
    rsa::RsaPublicKey::new(BigUint::from_bytes_be(modulus), BigUint::from_bytes_be(exponent)).err()
}

impl PublicKey {
    #[verifier::type_invariant]
    spec fn well_formed(self) -> bool {
        acceptable_key(be_value(self.modulus@), be_value(self.exponent@))
    }

    /// The big-endian bytes of the modulus, as the key was made with them.
    pub closed spec fn modulus_bytes(self) -> Seq<u8> {
        self.modulus@
    }

    /// The big-endian bytes of the exponent, as the key was made with them.
    pub closed spec fn exponent_bytes(self) -> Seq<u8> {
        self.exponent@
    }

    /// The modulus.
    pub open spec fn n(self) -> nat {
        be_value(self.modulus_bytes())
    }

    /// The public exponent.
    pub open spec fn e(self) -> nat {
        be_value(self.exponent_bytes())
    }

    /// The big-endian bytes of the modulus. Modulus and exponent of a key
    /// are always an acceptable pair.
    pub fn modulus(&self) -> (bytes: &[u8])
        ensures
            bytes@ == self.modulus_bytes(),
            acceptable_key(self.n(), self.e()),
    {
        proof {
            use_type_invariant(self);
        }
        self.modulus.as_slice()
    }

    /// The big-endian bytes of the exponent.
    pub fn exponent(&self) -> (bytes: &[u8])
        ensures
            bytes@ == self.exponent_bytes(),
            acceptable_key(self.n(), self.e()),
    {
        proof {
            use_type_invariant(self);
        }
        self.exponent.as_slice()
    }
}

/// Makes a public key of modulus and exponent, given as big-endian bytes.
pub fn build_public_key(modulus: Vec<u8>, exponent: Vec<u8>) -> (r: Result<PublicKey, LoginError>)
    ensures
        match r {
            Ok(key) => {
                &&& acceptable_key(be_value(modulus@), be_value(exponent@))
                &&& key.modulus_bytes() == modulus@
                &&& key.exponent_bytes() == exponent@
            },
            Err(e) => {
                &&& !acceptable_key(be_value(modulus@), be_value(exponent@))
                &&& e@ == LoginErrorView::InvalidKey
            },
        },
{
    match rsa_key_refusal(modulus.as_slice(), exponent.as_slice()) {
        None => Ok(PublicKey { modulus, exponent }),
        Some(_) => Err(LoginError::InvalidKey),
    }
}

/// The encryption block of PKCS#1 v1.5: `00 02`, the padding, `00`, the message.
pub open spec fn encryption_block(padding: Seq<u8>, message: Seq<u8>) -> Seq<u8> {
    seq![0u8, 2u8] + padding + seq![0u8] + message
}

/// `padding` holds no zero byte.
pub open spec fn has_no_zero(padding: Seq<u8>) -> bool {
    forall|i: int| 0 <= i < padding.len() ==> padding[i] != 0
}

/// `padding` fills a block of `k` bytes around `message` and holds no zero byte.
pub open spec fn is_padding(padding: Seq<u8>, message: Seq<u8>, k: nat) -> bool {
    &&& padding.len() + message.len() + 3 == k
    &&& has_no_zero(padding)
}

/// An encryption block is read in one way only: the padding ends at the
/// first zero byte behind `00 02`, so equal blocks hold equal messages.
pub proof fn lemma_block_reads_one_way(
    padding: Seq<u8>,
    message: Seq<u8>,
    other_padding: Seq<u8>,
    other_message: Seq<u8>,
)
    requires
        has_no_zero(padding),
        has_no_zero(other_padding),
        encryption_block(padding, message) == encryption_block(other_padding, other_message),
    ensures
        padding == other_padding,
        message == other_message,
{
    let block = encryption_block(padding, message);
    let other = encryption_block(other_padding, other_message);
    let end = 2 + padding.len() as int;
    let other_end = 2 + other_padding.len() as int;
    assert(block.len() == other.len());
    assert(block[end] == 0 && other[other_end] == 0);
    if end < other_end {
        assert(other[end] == other_padding[end - 2]);
    }
    if other_end < end {
        assert(block[other_end] == padding[other_end - 2]);
    }
    assert forall|i: int| 0 <= i < padding.len() implies padding[i] == other_padding[i] by {
        assert(block[2 + i] == padding[i] && other[2 + i] == other_padding[i]);
    }
    assert forall|i: int| 0 <= i < message.len() implies message[i] == other_message[i] by {
        assert(block[end + 1 + i] == message[i] && other[end + 1 + i] == other_message[i]);
    }
    assert(padding =~= other_padding);
    assert(message =~= other_message);
}

/// `cipher` is a PKCS#1 v1.5 encryption of `message` under modulus `n` and
/// exponent `e`: as long as the modulus, and the `e`-th power modulo `n` of an
/// encryption block that holds the message behind some padding.
pub open spec fn is_ciphertext(n: nat, e: nat, message: Seq<u8>, cipher: Seq<u8>) -> bool {
    &&& cipher.len() == byte_len(n)
    &&& exists|padding: Seq<u8>|
        is_padding(padding, message, byte_len(n)) && be_value(cipher) == pow(
            be_value(#[trigger] encryption_block(padding, message)) as int,
            e,
        ) % (n as int)
}

/// A message fits a modulus where eleven bytes are left for the block's frame.
pub open spec fn fits(n: nat, message: Seq<u8>) -> bool {
    message.len() + 11 <= byte_len(n)
}

/// What encrypting `message` under `n` and `e` may give: the base64 text of
/// one of its ciphertexts where the message fits, and a failure where not.
pub open spec fn is_encryption(
    n: nat,
    e: nat,
    message: Seq<u8>,
    r: Result<Seq<char>, LoginErrorView>,
) -> bool {
    if fits(n, message) {
        r matches Ok(text) && exists|cipher: Seq<u8>|
            is_ciphertext(n, e, message, cipher) && text == #[trigger] base64_text(cipher)
    } else {
        r == Err::<Seq<char>, LoginErrorView>(LoginErrorView::Encryption)
    }
}

/// `rsa::RsaPublicKey::encrypt` with `rsa::Pkcs1v15Encrypt` and
/// `rand::rngs::OsRng`, on the key that `rsa::RsaPublicKey::new_unchecked`
/// makes of the numbers that the bytes spell. With an acceptable key the call
/// fails exactly when the message does not fit the modulus. Otherwise it pads
/// the message with random bytes other than zero to a block as long as the
/// modulus, raises the block to the exponent modulo the modulus, and returns
/// that number in as many bytes as the modulus has. The sum of the message's
/// length and eleven must not overflow.
#[verifier::external_body]
fn rsa_encrypt(modulus: &[u8], exponent: &[u8], message: &[u8]) -> (r: Result<
    Vec<u8>,
    rsa::errors::Error,
>)
    requires
        acceptable_key(be_value(modulus@), be_value(exponent@)),
        message@.len() + 11 <= usize::MAX,
    ensures
        match r {
            Ok(cipher) => {
                &&& fits(be_value(modulus@), message@)
                &&& is_ciphertext(be_value(modulus@), be_value(exponent@), message@, cipher@)
            },
            Err(_) => !fits(be_value(modulus@), message@),
        },
{
    let key = rsa::RsaPublicKey::new_unchecked(
        BigUint::from_bytes_be(modulus),
        BigUint::from_bytes_be(exponent),
    );
    key.encrypt(&mut OsRng, Pkcs1v15Encrypt, message)
}

/// Encrypts `plaintext` under `key` with PKCS#1 v1.5 padding and fresh random
/// padding bytes, and returns the ciphertext as base64 text.
pub fn encrypt(key: &PublicKey, plaintext: &[u8]) -> (r: Result<String, LoginError>)
    ensures
        is_encryption(key.n(), key.e(), plaintext@, text_outcome(r)),
        !fits(key.n(), plaintext@) ==> text_outcome(r) == Err::<Seq<char>, LoginErrorView>(
            LoginErrorView::Encryption,
        ),
{
    proof {
        use_type_invariant(key);
    }
    if plaintext.len() > usize::MAX - 11 {
        return Err(LoginError::Encryption);
    }
    match rsa_encrypt(key.modulus.as_slice(), key.exponent.as_slice(), plaintext) {
        Ok(cipher) => Ok(base64_encode(cipher.as_slice())),
        Err(_) => Err(LoginError::Encryption),
    }
}

} // verus!

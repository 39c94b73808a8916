//! The symmetric cipher that protects the encrypted broadcast channel and
//! every private session.
//!
//! A token is the transport text of a fresh twelve-byte nonce followed by
//! the authenticated ciphertext of the message under a 32-byte key.

use aes_gcm::aead::{Aead, KeyInit};
use aes_gcm::{Aes256Gcm, Nonce};
use base64::engine::general_purpose;
use base64::Engine;
use rand::rngs::OsRng;
use rand::RngCore;
use vstd::prelude::*;
use vstd::slice::{slice_subrange, slice_to_vec};
use vstd::utf8::{decode_utf8, encode_utf8, valid_utf8};
use vstd::utf8::{encode_utf8_decode_utf8, encode_utf8_valid_utf8};

verus! {

/// Bytes in a nonce; every token starts with this many.
pub const NONCE_LEN: usize = 12;

/// Bytes in the authentication tag that ends a ciphertext.
pub const TAG_LEN: usize = 16;

/// The longest message, in bytes, that the cipher accepts.
pub const SEAL_LIMIT: u64 = 0x10_0000_0000;

/// Why an encryption or a decryption failed.
#[derive(Clone, Copy, Debug, PartialEq, Eq, Structural)]
pub enum CipherErrorKind {
    /// The message could not be encrypted: it is too long for the cipher or
    /// for a token, or no random nonce could be drawn.
    Encryption,
    /// The token is not well-formed transport text.
    Token,
    /// The token is shorter than a nonce.
    Decrypt,
    /// The authentication tag does not verify: wrong key or altered data.
    Authentication,
    /// The decrypted bytes are not valid text.
    Encoding,
}

/// A failure of the cipher: its kind, and the text that describes it.
#[derive(Clone, Debug, PartialEq, Eq)]
pub struct CipherError {
    pub kind: CipherErrorKind,
    pub detail: String,
}

/// The mathematical value of a [`CipherError`].
pub struct CipherFault {
    pub kind: CipherErrorKind,
    pub detail: Seq<char>,
}

impl View for CipherError {
    type V = CipherFault;

    open spec fn view(&self) -> CipherFault {
        CipherFault { kind: self.kind, detail: self.detail@ }
    }
}

impl CipherError {
    /// The text that describes the failure.
    pub fn message(&self) -> (text: String)
        ensures
            text@ == self@.detail,
    {
        self.detail.clone()
    }
}

/// The transport text that the standard padded base64 alphabet gives to
/// `bytes`.
pub uninterp spec fn base64_text(bytes: Seq<u8>) -> Seq<char>;

/// The bytes that standard padded base64 text stands for, or the decoder's
/// description of what is wrong with the text.
pub uninterp spec fn base64_bytes(text: Seq<char>) -> Result<Seq<u8>, Seq<char>>;

/// The AES-256-GCM ciphertext of `plaintext` with its tag appended, under
/// `key` and `nonce` and with no associated data; or the cipher's description
/// of its refusal.
pub uninterp spec fn aes_gcm_sealed(key: Seq<u8>, nonce: Seq<u8>, plaintext: Seq<u8>) -> Result<
    Seq<u8>,
    Seq<char>,
>;

/// The plaintext that AES-256-GCM recovers from `sealed` under `key` and
/// `nonce`, or the cipher's description of its refusal.
pub uninterp spec fn aes_gcm_opened(key: Seq<u8>, nonce: Seq<u8>, sealed: Seq<u8>) -> Result<
    Seq<u8>,
    Seq<char>,
>;

/// The standard library's description of why `bytes` are not UTF-8.
pub uninterp spec fn utf8_fault(bytes: Seq<u8>) -> Seq<char>;

/// The byte sequence, or the fault text, inside a result.
pub open spec fn bytes_or_fault(r: Result<Vec<u8>, String>) -> Result<Seq<u8>, Seq<char>> {
    match r {
        Ok(bytes) => Ok(bytes@),
        Err(fault) => Err(fault@),
    }
}

/// The text, or the fault, inside a result of the cipher.
pub open spec fn text_or_fault(r: Result<String, CipherError>) -> Result<Seq<char>, CipherFault> {
    match r {
        Ok(text) => Ok(text@),
        Err(fault) => Err(fault@),
    }
}

/// Whether decoding or opening succeeded with exactly `bytes`.
pub open spec fn opens_to(outcome: Result<Seq<u8>, Seq<char>>, bytes: Seq<u8>) -> bool {
    outcome == Ok::<Seq<u8>, Seq<char>>(bytes)
}

/// The length of padded base64 text for `len` bytes: four characters for
/// every three bytes begun.
pub open spec fn base64_len(len: nat) -> nat {
    4 * ((len + 2) / 3)
}

/// Whether `token` has the shape of a token for a message of `len` bytes:
/// it spells a nonce, the ciphertext and a tag, and has the length of that
/// many bytes in base64.
pub open spec fn is_token_for(token: Seq<char>, len: nat) -> bool {
    let framed = NONCE_LEN as nat + len + TAG_LEN as nat;
    &&& base64_bytes(token) matches Ok(raw)
    &&& raw.len() == framed
    &&& token.len() == base64_len(framed)
}

/// Whether base64 text for `len` bytes has a length that fits in `usize`.
pub open spec fn encodable(len: nat) -> bool {
    len / 3 < usize::MAX / 4
}

/// Whether a message of `len` bytes can be turned into a token.
pub open spec fn encryptable(len: nat) -> bool {
    len <= SEAL_LIMIT && encodable(NONCE_LEN as nat + len + TAG_LEN as nat)
}

/// The fault reported for a message whose token would be too long.
pub open spec fn oversize_fault() -> CipherFault {
    CipherFault { kind: CipherErrorKind::Encryption, detail: "Message too long"@ }
}

/// The fault reported when no random nonce could be drawn.
pub open spec fn randomness_fault() -> CipherFault {
    CipherFault { kind: CipherErrorKind::Encryption, detail: "No randomness available"@ }
}

/// The token that holds `nonce` and `sealed`, unless it would be too long.
pub open spec fn wrap_spec(nonce: Seq<u8>, sealed: Seq<u8>) -> Result<Seq<char>, CipherFault> {
    if encodable(nonce.len() + sealed.len()) {
        Ok(base64_text(nonce + sealed))
    } else {
        Err(oversize_fault())
    }
}

/// What reading opened bytes as text yields.
pub open spec fn read_text_spec(bytes: Seq<u8>) -> Result<Seq<char>, CipherFault> {
    if valid_utf8(bytes) {
        Ok(decode_utf8(bytes))
    } else {
        Err(CipherFault { kind: CipherErrorKind::Encoding, detail: utf8_fault(bytes) })
    }
}

/// The nonce and the sealed message that the bytes of a token hold, when
/// they are long enough to hold a nonce.
pub open spec fn split_frame_spec(raw: Seq<u8>) -> Option<(Seq<u8>, Seq<u8>)> {
    if raw.len() < NONCE_LEN {
        None
    } else {
        Some((raw.subrange(0, NONCE_LEN as int), raw.subrange(NONCE_LEN as int, raw.len() as int)))
    }
}

/// The fault reported for a token that is shorter than a nonce.
pub open spec fn short_fault() -> CipherFault {
    CipherFault { kind: CipherErrorKind::Decrypt, detail: "Message too short"@ }
}

/// The nonce that a token was made with: what its first twelve bytes spell.
pub open spec fn token_nonce(token: Seq<char>) -> Option<Seq<u8>> {
    match base64_bytes(token) {
        Ok(raw) => match split_frame_spec(raw) {
            Some((nonce, _)) => Some(nonce),
            None => None,
        },
        Err(_) => None,
    }
}

/// The token for `plaintext` under `key` when the nonce drawn is `nonce`.
pub open spec fn token_of(plaintext: Seq<char>, key: Seq<u8>, nonce: Seq<u8>) -> Result<
    Seq<char>,
    CipherFault,
> {
    match aes_gcm_sealed(key, nonce, encode_utf8(plaintext)) {
        Ok(sealed) => wrap_spec(nonce, sealed),
        Err(detail) => Err(CipherFault { kind: CipherErrorKind::Encryption, detail }),
    }
}

/// What decrypting `token` under `key` yields.
pub open spec fn decrypt_spec(token: Seq<char>, key: Seq<u8>) -> Result<Seq<char>, CipherFault> {
    match base64_bytes(token) {
        Err(detail) => Err(CipherFault { kind: CipherErrorKind::Token, detail }),
        Ok(raw) => match split_frame_spec(raw) {
            None => Err(short_fault()),
            Some((nonce, sealed)) => match aes_gcm_opened(key, nonce, sealed) {
                Err(detail) => Err(CipherFault { kind: CipherErrorKind::Authentication, detail }),
                Ok(bytes) => read_text_spec(bytes),
            },
        },
    }
}

/// Calls `OsRng::try_fill_bytes` on a fresh array. Nothing is claimed of the
/// bytes drawn; `None` when the operating system's source fails.
#[verifier::external_body]
pub(crate) fn random_array<const N: usize>() -> (bytes: Option<[u8; N]>) {
    let mut bytes = [0u8; N];
    match OsRng.try_fill_bytes(&mut bytes) {
        Ok(()) => Some(bytes),
        Err(_) => None,
    }
}

/// Calls `Aead::encrypt` of `Aes256Gcm` with no associated data; the nonce
/// must have twelve bytes, or the call panics. The cipher refuses only a
/// plaintext longer than [`SEAL_LIMIT`]; what it returns is the ciphertext
/// followed by the tag, and opening that under the same key and nonce gives
/// the plaintext back.
#[verifier::external_body]
pub(crate) fn aead_seal(key: &[u8; 32], nonce: &[u8], plaintext: &[u8]) -> (sealed: Result<
    Vec<u8>,
    String,
>)
    requires
        nonce@.len() == NONCE_LEN,
    ensures
        bytes_or_fault(sealed) == aes_gcm_sealed(key@, nonce@, plaintext@),
        plaintext@.len() <= SEAL_LIMIT ==> sealed is Ok,
        sealed matches Ok(c) ==> c@.len() == plaintext@.len() + TAG_LEN,
        sealed matches Ok(c) ==> opens_to(aes_gcm_opened(key@, nonce@, c@), plaintext@),
{
    match Aes256Gcm::new(key.into()).encrypt(Nonce::from_slice(nonce), plaintext) {
        Ok(sealed) => Ok(sealed),
        Err(e) => Err(e.to_string()),
    }
}

/// Calls `Aead::decrypt` of `Aes256Gcm` with no associated data, which
/// refuses what is shorter than a tag, recomputes the tag and fails unless
/// it matches, and returns what was sealed without the tag. The outcome, the
/// text of a refusal included, depends on the three arguments alone.
#[verifier::external_body]
pub(crate) fn aead_open(key: &[u8; 32], nonce: &[u8], sealed: &[u8]) -> (opened: Result<
    Vec<u8>,
    String,
>)
    requires
        nonce@.len() == NONCE_LEN,
    ensures
        bytes_or_fault(opened) == aes_gcm_opened(key@, nonce@, sealed@),
        sealed@.len() < TAG_LEN ==> opened is Err,
        opened matches Ok(p) ==> sealed@.len() == p@.len() + TAG_LEN,
{
    match Aes256Gcm::new(key.into()).decrypt(Nonce::from_slice(nonce), sealed) {
        Ok(opened) => Ok(opened),
        Err(e) => Err(e.to_string()),
    }
}

/// Calls `Engine::encode` of base64's `STANDARD` engine, which panics when
/// the length of the text would not fit in `usize`. The text has four
/// characters for every three bytes begun, and decoding it gives the bytes
/// back.
#[verifier::external_body]
pub(crate) fn base64_encode(bytes: &[u8]) -> (text: String)
    requires
        encodable(bytes@.len()),
    ensures
        text@ == base64_text(bytes@),
        text@.len() == base64_len(bytes@.len()),
        opens_to(base64_bytes(text@), bytes@),
{
    general_purpose::STANDARD.encode(bytes)
}

/// Calls `Engine::decode` of base64's `STANDARD` engine. The outcome, the
/// text of a refusal included, depends on the text alone.
#[verifier::external_body]
pub(crate) fn base64_decode(text: &str) -> (bytes: Result<Vec<u8>, String>)
    ensures
        bytes_or_fault(bytes) == base64_bytes(text@),
{
    match general_purpose::STANDARD.decode(text) {
        Ok(bytes) => Ok(bytes),
        Err(e) => Err(e.to_string()),
    }
}

/// Calls `String::from_utf8`, which succeeds exactly on valid UTF-8 and then
/// returns the text that those bytes encode. The text of a refusal depends
/// on the bytes alone.
#[verifier::external_body]
pub(crate) fn text_from_utf8(bytes: Vec<u8>) -> (text: Result<String, String>)
    ensures
        valid_utf8(bytes@) <==> text is Ok,
        text matches Ok(s) ==> encode_utf8(s@) == bytes@,
        text matches Err(fault) ==> fault@ == utf8_fault(bytes@),
{
    match String::from_utf8(bytes) {
        Ok(text) => Ok(text),
        Err(e) => Err(e.to_string()),
    }
}

/// The nonce followed by the sealed message: the bytes that a token spells.
pub fn frame(nonce: &[u8], sealed: &[u8]) -> (framed: Vec<u8>)
    ensures
        framed@ == nonce@ + sealed@,
{
    let mut framed = slice_to_vec(nonce);
    let mut i: usize = 0;
    while i < sealed.len()
        invariant
            i <= sealed@.len(),
            framed@ == nonce@ + sealed@.subrange(0, i as int),
        decreases sealed@.len() - i,
    {
        framed.push(sealed[i]);
        i += 1;
    }
    assert(sealed@.subrange(0, sealed@.len() as int) == sealed@);
    framed
}

/// Turns a nonce and the message sealed under it into a token. Reading the
/// token back gives the nonce followed by the sealed message.
pub fn wrap_sealed(nonce: &[u8; 12], sealed: &[u8]) -> (token: Result<String, CipherError>)
    ensures
        text_or_fault(token) == wrap_spec(nonce@, sealed@),
        token matches Ok(t) ==> opens_to(base64_bytes(t@), nonce@ + sealed@),
        token matches Ok(t) ==> t@.len() == base64_len(nonce@.len() + sealed@.len()),
        token matches Ok(t) ==> token_nonce(t@) == Some(nonce@),
{
    if sealed.len() > usize::MAX - NONCE_LEN || (NONCE_LEN + sealed.len()) / 3 >= usize::MAX / 4 {
        return Err(
            CipherError { kind: CipherErrorKind::Encryption, detail: "Message too long".to_owned() },
        );
    }
    let framed = frame(nonce.as_slice(), sealed);
    assert((nonce@ + sealed@).subrange(0, NONCE_LEN as int) == nonce@);
    Ok(base64_encode(framed.as_slice()))
}

/// Encrypts `plaintext` under `key` with the given nonce and returns the
/// token. Decrypting the token under the same key gives `plaintext` back.
pub fn encrypt_with_nonce(plaintext: &str, key: &[u8; 32], nonce: &[u8; 12]) -> (token: Result<
    String,
    CipherError,
>)
    ensures
        text_or_fault(token) == token_of(plaintext@, key@, nonce@),
        encryptable(encode_utf8(plaintext@).len()) ==> token is Ok,
        token matches Ok(t) ==> decrypt_spec(t@, key@) == Ok::<Seq<char>, CipherFault>(
            plaintext@,
        ),
        token matches Ok(t) ==> token_nonce(t@) == Some(nonce@),
        token matches Ok(t) ==> is_token_for(t@, encode_utf8(plaintext@).len()),
{
    let sealed = match aead_seal(key, nonce.as_slice(), plaintext.as_bytes()) {
        Ok(sealed) => sealed,
        Err(detail) => {
            return Err(CipherError { kind: CipherErrorKind::Encryption, detail });
        },
    };
    let token = wrap_sealed(nonce, sealed.as_slice());
    proof {
        let raw = nonce@ + sealed@;
        assert(raw.subrange(0, NONCE_LEN as int) == nonce@);
        assert(raw.subrange(NONCE_LEN as int, raw.len() as int) == sealed@);
        encode_utf8_valid_utf8(plaintext@);
        encode_utf8_decode_utf8(plaintext@);
    }
    token
}

/// Tokens made with different nonces are different tokens, whatever the
/// messages and the keys: two tokens are the same only if the nonces drawn
/// for them were.
pub proof fn lemma_distinct_nonces_give_distinct_tokens(first: Seq<char>, second: Seq<char>)
    requires
        token_nonce(first) != token_nonce(second),
    ensures
        first != second,
{
}

/// Encrypts `plaintext` under `key` with a nonce drawn afresh from the
/// operating system, and returns the token. Decrypting the token under the
/// same key gives `plaintext` back.
pub fn encrypt_message(plaintext: &str, key: &[u8; 32]) -> (token: Result<String, CipherError>)
    ensures
        text_or_fault(token) == Err::<Seq<char>, CipherFault>(randomness_fault()) || exists|
            nonce: Seq<u8>,
        |
            nonce.len() == NONCE_LEN && text_or_fault(token) == #[trigger] token_of(
                plaintext@,
                key@,
                nonce,
            ),
        token matches Ok(t) ==> decrypt_spec(t@, key@) == Ok::<Seq<char>, CipherFault>(
            plaintext@,
        ),
        token matches Ok(t) ==> token_nonce(t@) is Some,
        token matches Ok(t) ==> is_token_for(t@, encode_utf8(plaintext@).len()),
{
    match random_array::<12>() {
        Some(nonce) => {
            let token = encrypt_with_nonce(plaintext, key, &nonce);
            assert(nonce@.len() == NONCE_LEN && text_or_fault(token) == token_of(
                plaintext@,
                key@,
                nonce@,
            ));
            token
        },
        None => Err(
            CipherError {
                kind: CipherErrorKind::Encryption,
                detail: "No randomness available".to_owned(),
            },
        ),
    }
}

/// Splits the bytes of a token into the nonce and the sealed message.
pub fn split_frame(raw: &[u8]) -> (parts: Result<(&[u8], &[u8]), CipherError>)
    ensures
        match split_frame_spec(raw@) {
            Some((nonce, sealed)) => parts matches Ok(p) && p.0@ == nonce && p.1@ == sealed,
            None => parts matches Err(fault) && fault@ == short_fault(),
        },
{
    if raw.len() < NONCE_LEN {
        return Err(
            CipherError { kind: CipherErrorKind::Decrypt, detail: "Message too short".to_owned() },
        );
    }
    Ok((slice_subrange(raw, 0, NONCE_LEN), slice_subrange(raw, NONCE_LEN, raw.len())))
}

/// Reads opened bytes as text.
pub fn read_text(bytes: Vec<u8>) -> (text: Result<String, CipherError>)
    ensures
        text_or_fault(text) == read_text_spec(bytes@),
{
    match text_from_utf8(bytes) {
        Ok(text) => {
            proof {
                encode_utf8_decode_utf8(text@);
            }
            Ok(text)
        },
        Err(detail) => Err(CipherError { kind: CipherErrorKind::Encoding, detail }),
    }
}

/// Decrypts a token under `key`: reads the transport text, splits off the
/// nonce, verifies and opens the ciphertext, and reads the result as text.
pub fn decrypt_message(token: &str, key: &[u8; 32]) -> (text: Result<String, CipherError>)
    ensures
        text_or_fault(text) == decrypt_spec(token@, key@),
{
    let raw = match base64_decode(token) {
        Ok(raw) => raw,
        Err(detail) => {
            return Err(CipherError { kind: CipherErrorKind::Token, detail });
        },
    };
    let (nonce, sealed) = match split_frame(raw.as_slice()) {
        Ok(parts) => parts,
        Err(fault) => {
            return Err(fault);
        },
    };
    match aead_open(key, nonce, sealed) {
        Ok(bytes) => read_text(bytes),
        Err(detail) => Err(CipherError { kind: CipherErrorKind::Authentication, detail }),
    }
}

} // verus!

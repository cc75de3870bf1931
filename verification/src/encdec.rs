use vstd::prelude::*;

use magic_crypt::MagicCryptTrait;

use crate::hexstr::{hex_decode, hex_encode, hex_of, lemma_hex_of_len, lemma_unhex_hex_of, unhex};

verus! {

/// Failure of the cipher: wrong key or malformed ciphertext. Decryption under
/// a wrong key has no separate signal; this error is the authentication
/// signal itself.
#[derive(Debug, PartialEq, Eq, Clone, Copy)]
pub struct CipherError;

/// What the AES-256 primitive returns for a given plaintext and key. The
/// cipher is built with a key-derived state and no random nonce, so the
/// result is a function of its two arguments alone.
pub uninterp spec fn mc_cipher_of(data: Seq<char>, key: Seq<char>) -> Seq<u8>;

/// What decrypting a byte sequence under a key yields: the plaintext, or
/// `None` when the bytes do not decrypt under that key to text.
pub uninterp spec fn mc_plain_of(data: Seq<u8>, key: Seq<char>) -> Option<Seq<char>>;

/// Relies on magic_crypt's `MagicCrypt256::new` (key hashed, zero
/// initialisation vector, as the crate builds it when given no vector) and
/// `encrypt_str_to_bytes`: the ciphertext is a function of data and key
/// alone; decrypting it under the same key gives the data back; and the
/// block cipher's padding makes the output a nonzero multiple of the
/// sixteen-byte block size.
#[verifier::external_body]
fn mc_encrypt(data: &str, key: &str) -> (r: Vec<u8>)
    ensures
        r@ == mc_cipher_of(data@, key@),
        mc_plain_of(r@, key@) == Some(data@),
        r@.len() % 16 == 0,
        r@.len() >= 16,
{
    let mc = magic_crypt::MagicCrypt256::new(key, None::<&[u8]>);
    mc.encrypt_str_to_bytes(data)
}

/// Relies on magic_crypt's `MagicCrypt256::decrypt_bytes_to_bytes` followed
/// by `String::from_utf8`: the outcome is a function of data and key alone;
/// it fails on bytes that do not decrypt under the key to text.
#[verifier::external_body]
fn mc_decrypt(data: &[u8], key: &str) -> (r: Option<String>)
    ensures
        match r {
            Some(p) => mc_plain_of(data@, key@) == Some(p@),
            None => mc_plain_of(data@, key@) is None,
        },
{
    let mc = magic_crypt::MagicCrypt256::new(key, None::<&[u8]>);
    match mc.decrypt_bytes_to_bytes(data) {
        Ok(bytes) => String::from_utf8(bytes).ok(),
        Err(_) => None,
    }
}

/// The stored spelling of a text encrypted under a key: the ciphertext bytes,
/// spelled as hex.
pub open spec fn encrypt_spec(data: Seq<char>, key: Seq<char>) -> Seq<char> {
    hex_of(mc_cipher_of(data, key))
}

/// What decrypting a stored spelling under a key yields.
pub open spec fn decrypt_spec(data: Seq<char>, key: Seq<char>) -> Option<Seq<char>> {
    match unhex(data) {
        Some(bytes) => mc_plain_of(bytes, key),
        None => None,
    }
}

/// Encrypt a text under a key. The second clause is the round trip law:
/// decrypting the result under the same key returns the text, for every text
/// and every key. The spelling is always at least one cipher block of hex:
/// thirty-two characters, and an even count.
pub fn encrypt(data: &str, key: &str) -> (r: String)
    ensures
        r@ == encrypt_spec(data@, key@),
        decrypt_spec(r@, key@) == Some(data@),
        r@.len() % 2 == 0,
        r@.len() >= 32,
{
    let bytes = mc_encrypt(data, key);
    let r = hex_encode(bytes.as_slice());
    proof {
        lemma_unhex_hex_of(bytes@);
        lemma_hex_of_len(bytes@);
    }
    r
}

/// Decrypt a stored spelling under a key. Fails, and never panics, exactly
/// when the spelling is no hex text or its bytes do not decrypt under the
/// key.
pub fn decrypt(encrypted_data: &str, key: &str) -> (r: Result<String, CipherError>)
    ensures
        match r {
            Ok(p) => decrypt_spec(encrypted_data@, key@) == Some(p@),
            Err(_) => decrypt_spec(encrypted_data@, key@) is None,
        },
{
    match hex_decode(encrypted_data) {
        Some(bytes) => match mc_decrypt(bytes.as_slice(), key) {
            Some(p) => Ok(p),
            None => Err(CipherError),
        },
        None => Err(CipherError),
    }
}

} // verus!

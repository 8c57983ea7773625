//! The calls into outside crates and std that the pipeline is built on, each
//! with the contract that the rest of the library relies on.

use vstd::prelude::*;
use vstd::utf8::{decode_utf8, valid_utf8};

use aes::Aes128;
use block_modes::block_padding::Pkcs7;
use block_modes::{BlockMode, Cbc};
use flate2::read::GzDecoder;
use flate2::write::GzEncoder;
use flate2::Compression;
use rand::Rng;
use std::io::{Read, Write};

verus! {

/// Length in bytes of a key, of an initialization vector and of a cipher block.
pub const BLOCK_LEN: usize = 16;

/// The standard base64 text of a byte string.
pub uninterp spec fn base64_of(b: Seq<u8>) -> Seq<u8>;

/// The bytes that a text decodes to under standard base64, if it is valid.
pub uninterp spec fn unbase64_of(t: Seq<u8>) -> Option<Seq<u8>>;

/// The gzip stream that the default compression level makes of a byte string.
pub uninterp spec fn gzip_of(b: Seq<u8>) -> Seq<u8>;

/// The bytes that a gzip stream decompresses to, if it is a valid stream.
pub uninterp spec fn gunzip_of(z: Seq<u8>) -> Option<Seq<u8>>;

/// AES-128 in CBC mode with PKCS#7 padding: the ciphertext of `data`.
pub uninterp spec fn aes_cbc_of(key: Seq<u8>, iv: Seq<u8>, data: Seq<u8>) -> Seq<u8>;

/// AES-128 in CBC mode with PKCS#7 padding: the plaintext of `ct`, if the
/// ciphertext is whole blocks and its padding checks out.
pub uninterp spec fn aes_cbc_inverse_of(key: Seq<u8>, iv: Seq<u8>, ct: Seq<u8>) -> Option<Seq<u8>>;

/// A byte of the standard base64 alphabet, padding included.
pub open spec fn is_base64_byte(c: u8) -> bool {
    (65 <= c <= 90) || (97 <= c <= 122) || (48 <= c <= 57) || c == 43 || c == 47 || c == 61
}

pub open spec fn is_base64_text(t: Seq<u8>) -> bool {
    forall|i: int| 0 <= i < t.len() ==> is_base64_byte(#[trigger] t[i])
}

/// Relies on base64::encode (standard alphabet, padded): its text uses only
/// that alphabet, and base64::decode gives the input back.
#[verifier::external_body]
pub fn base64_encode(b: &[u8]) -> (r: Vec<u8>)
    ensures
        r@ == base64_of(b@),
        is_base64_text(r@),
        unbase64_of(r@) == Some(b@),
{
    base64::encode(b).into_bytes()
}

/// Relies on base64::decode: the decoded bytes, or its error on a text that
/// is not valid standard base64.
#[verifier::external_body]
pub fn base64_decode(t: &[u8]) -> (r: Option<Vec<u8>>)
    ensures
        r is Some <==> unbase64_of(t@) is Some,
        r matches Some(v) ==> unbase64_of(t@) == Some(v@),
{
    base64::decode(t).ok()
}

/// Relies on flate2's GzEncoder over a Vec at the default level: writing to
/// a Vec never fails and the compressor reports errors only on misuse, so it
/// always finishes; a stream it finishes is read back whole by GzDecoder.
#[verifier::external_body]
pub fn gzip(b: &[u8]) -> (r: Option<Vec<u8>>)
    ensures
        r is Some,
        r matches Some(z) ==> z@ == gzip_of(b@) && gunzip_of(z@) == Some(b@),
{
    let mut e = GzEncoder::new(Vec::new(), Compression::default());
    match e.write_all(b) {
        Ok(()) => e.finish().ok(),
        Err(_) => None,
    }
}

/// Relies on flate2's GzDecoder, read to the end: the decompressed bytes, or
/// its error on a corrupt or truncated stream.
#[verifier::external_body]
pub fn gunzip(z: &[u8]) -> (r: Option<Vec<u8>>)
    ensures
        r is Some <==> gunzip_of(z@) is Some,
        r matches Some(v) ==> gunzip_of(z@) == Some(v@),
{
    let mut out = Vec::new();
    match GzDecoder::new(z).read_to_end(&mut out) {
        Ok(_) => Some(out),
        Err(_) => None,
    }
}

/// Relies on block_modes' Cbc<Aes128, Pkcs7>: `new_from_slices` accepts a
/// 16-byte key and IV, and `decrypt_vec` undoes `encrypt_vec`.
#[verifier::external_body]
pub fn aes_cbc_encrypt(key: &[u8], iv: &[u8], data: &[u8]) -> (r: Option<Vec<u8>>)
    requires
        key@.len() == BLOCK_LEN,
        iv@.len() == BLOCK_LEN,
    ensures
        r is Some,
        r matches Some(c) ==> c@ == aes_cbc_of(key@, iv@, data@) && aes_cbc_inverse_of(
            key@,
            iv@,
            c@,
        ) == Some(data@),
{
    match Cbc::<Aes128, Pkcs7>::new_from_slices(key, iv) {
        Ok(c) => Some(c.encrypt_vec(data)),
        Err(_) => None,
    }
}

/// Relies on block_modes' Cbc<Aes128, Pkcs7>::decrypt_vec: the plaintext, or
/// its error on a ciphertext of partial blocks or with bad padding.
#[verifier::external_body]
pub fn aes_cbc_decrypt(key: &[u8], iv: &[u8], ct: &[u8]) -> (r: Option<Vec<u8>>)
    requires
        key@.len() == BLOCK_LEN,
        iv@.len() == BLOCK_LEN,
    ensures
        r is Some <==> aes_cbc_inverse_of(key@, iv@, ct@) is Some,
        r matches Some(v) ==> aes_cbc_inverse_of(key@, iv@, ct@) == Some(v@),
{
    match Cbc::<Aes128, Pkcs7>::new_from_slices(key, iv) {
        Ok(c) => c.decrypt_vec(ct).ok(),
        Err(_) => None,
    }
}

/// Relies on rand's thread_rng, a cryptographically secure generator, for
/// one block of random bytes.
#[verifier::external_body]
pub fn random_block() -> (r: Vec<u8>)
    ensures
        r@.len() == BLOCK_LEN,
{
    rand::thread_rng().gen::<[u8; 16]>().to_vec()
}

/// Relies on String::from_utf8: it accepts exactly the valid UTF-8 byte
/// strings, and the text holds the characters they encode.
#[verifier::external_body]
pub fn utf8_text(b: Vec<u8>) -> (r: Option<String>)
    ensures
        r is Some <==> valid_utf8(b@),
        r matches Some(s) ==> s@ == decode_utf8(b@),
{
    String::from_utf8(b).ok()
}

/// The path that Path::with_extension makes of a path and an extension.
pub uninterp spec fn path_with_extension_of(path: Seq<char>, ext: Seq<char>) -> Seq<char>;

/// The extension that Path::extension finds in a path, if any.
pub uninterp spec fn path_extension_of(path: Seq<char>) -> Option<Seq<char>>;

/// The text holds a path separator.
pub open spec fn has_separator(s: Seq<char>) -> bool {
    exists|i: int| 0 <= i < s.len() && s[i] == '/'
}

/// Relies on std's Path::with_extension, on a path given as text; it panics
/// on an extension that holds a path separator.
#[verifier::external_body]
pub fn with_extension(path: &str, ext: &str) -> (r: String)
    requires
        !has_separator(ext@),
    ensures
        r@ == path_with_extension_of(path@, ext@),
{
    std::path::Path::new(path).with_extension(ext).to_string_lossy().into_owned()
}

/// Relies on std's Path::extension, on a path given as text; the extension
/// of a text path is text.
#[verifier::external_body]
pub fn path_extension(path: &str) -> (r: Option<String>)
    ensures
        r is Some <==> path_extension_of(path@) is Some,
        r matches Some(e) ==> path_extension_of(path@) == Some(e@),
{
    std::path::Path::new(path).extension().and_then(|e| e.to_str()).map(|e| e.to_owned())
}

} // verus!

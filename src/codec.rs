//! The codec pipeline. Forward: compress, base64, and in secure mode encrypt
//! and base64 again; the extension is stored as it is, or in secure mode
//! encrypted and base64 encoded. Backward: the exact mirror, every failure
//! reported.

use vstd::prelude::*;
use vstd::utf8::{decode_utf8, encode_utf8, valid_utf8};

use crate::frame::{
    frame, frame_spec, lemma_unframe_frame, no_newline, unframe, unframe_spec, FrameError,
    NEWLINE,
};
use crate::keys::{CipherError, KeyMaterial};
use crate::primitives::{
    aes_cbc_decrypt, aes_cbc_encrypt, aes_cbc_inverse_of, aes_cbc_of, base64_decode,
    base64_encode, base64_of, gunzip, gunzip_of, gzip, gzip_of, is_base64_text, unbase64_of, utf8_text,
};

verus! {

broadcast use vstd::utf8::encode_utf8_valid_utf8, vstd::utf8::encode_utf8_decode_utf8;

#[derive(Debug, Clone, Copy, PartialEq, Eq, Structural)]
pub enum CodecError {
    /// The compressor reported an error; it reports none on valid input.
    CompressFailed,
    /// A field that should be base64 text is not.
    TextDecodeFailed,
    /// The compressed stream is corrupt.
    DecompressFailed,
    /// The restored extension is not UTF-8 text.
    ExtensionNotText,
}

#[derive(Debug, Clone, Copy, PartialEq, Eq, Structural)]
pub enum NameError {
    /// The restored file's extension holds a path separator.
    ExtensionHasSeparator,
    /// A file that a conversion writes or deletes has the name of the file
    /// it is converting, which would be lost.
    WouldOverwriteInput,
}

/// Why a conversion failed, by the stage that failed.
#[derive(Debug, Clone, Copy, PartialEq, Eq, Structural)]
pub enum ConvertError {
    Name(NameError),
    Cipher(CipherError),
    Frame(FrameError),
    Codec(CodecError),
}

/// A restored file: its bytes and its extension.
#[derive(Debug)]
pub struct Restored {
    pub data: Vec<u8>,
    pub extension: String,
}

/// The key and IV that a conversion runs under; none outside secure mode.
pub open spec fn keys_view(key: Option<&KeyMaterial>) -> Option<(Seq<u8>, Seq<u8>)> {
    match key {
        Some(km) => Some((km.key@, km.iv@)),
        None => None,
    }
}

pub open spec fn keys_wf(key: Option<&KeyMaterial>) -> bool {
    key matches Some(km) ==> km.wf()
}

/// A field as stored: as it is outside secure mode, else encrypted and then
/// base64 encoded.
pub open spec fn seal_spec(b: Seq<u8>, keys: Option<(Seq<u8>, Seq<u8>)>) -> Seq<u8> {
    match keys {
        None => b,
        Some((k, iv)) => base64_of(aes_cbc_of(k, iv, b)),
    }
}

/// The container for a compressed stream and the bytes of an extension.
pub open spec fn container_spec(
    compressed: Seq<u8>,
    ext: Seq<u8>,
    keys: Option<(Seq<u8>, Seq<u8>)>,
) -> Seq<u8> {
    frame_spec(seal_spec(ext, keys), seal_spec(base64_of(compressed), keys))
}

/// The inverse of `seal_spec`: a field as it was before it was stored.
pub open spec fn unseal_spec(f: Seq<u8>, keys: Option<(Seq<u8>, Seq<u8>)>) -> Result<
    Seq<u8>,
    ConvertError,
> {
    match keys {
        None => Ok(f),
        Some((k, iv)) => match unbase64_of(f) {
            None => Err(ConvertError::Codec(CodecError::TextDecodeFailed)),
            Some(ct) => match aes_cbc_inverse_of(k, iv, ct) {
                None => Err(ConvertError::Cipher(CipherError::DecryptFailed)),
                Some(pt) => Ok(pt),
            },
        },
    }
}

/// The extension that an extension field holds.
pub open spec fn extension_spec(e: Seq<u8>, keys: Option<(Seq<u8>, Seq<u8>)>) -> Result<
    Seq<char>,
    ConvertError,
> {
    match unseal_spec(e, keys) {
        Err(x) => Err(x),
        Ok(b) => if valid_utf8(b) {
            Ok(decode_utf8(b))
        } else {
            Err(ConvertError::Codec(CodecError::ExtensionNotText))
        },
    }
}

/// The compressed stream that a payload field holds.
pub open spec fn compressed_spec(p: Seq<u8>, keys: Option<(Seq<u8>, Seq<u8>)>) -> Result<
    Seq<u8>,
    ConvertError,
> {
    match unseal_spec(p, keys) {
        Err(x) => Err(x),
        Ok(t) => match unbase64_of(t) {
            None => Err(ConvertError::Codec(CodecError::TextDecodeFailed)),
            Some(z) => Ok(z),
        },
    }
}

/// A container opened up to its compressed stream and its extension; the
/// extension field is read first.
pub open spec fn open_spec(c: Seq<u8>, keys: Option<(Seq<u8>, Seq<u8>)>) -> Result<
    (Seq<u8>, Seq<char>),
    ConvertError,
> {
    match unframe_spec(c) {
        None => Err(ConvertError::Frame(FrameError::Malformed)),
        Some((e, p)) => match extension_spec(e, keys) {
            Err(x) => Err(x),
            Ok(x) => match compressed_spec(p, keys) {
                Err(y) => Err(y),
                Ok(z) => Ok((z, x)),
            },
        },
    }
}

/// A container decoded to the original bytes and extension.
pub open spec fn decode_spec(c: Seq<u8>, keys: Option<(Seq<u8>, Seq<u8>)>) -> Result<
    (Seq<u8>, Seq<char>),
    ConvertError,
> {
    match open_spec(c, keys) {
        Err(x) => Err(x),
        Ok((z, x)) => match gunzip_of(z) {
            None => Err(ConvertError::Codec(CodecError::DecompressFailed)),
            Some(raw) => Ok((raw, x)),
        },
    }
}

proof fn lemma_base64_no_newline(t: Seq<u8>)
    requires
        is_base64_text(t),
    ensures
        no_newline(t),
{
    assert forall|i: int| 0 <= i < t.len() implies #[trigger] t[i] != NEWLINE by {
        assert(crate::primitives::is_base64_byte(t[i]));
    }
}

/// Stores a field: encrypts and base64-encodes it in secure mode.
fn seal(b: Vec<u8>, key: Option<&KeyMaterial>) -> (r: Vec<u8>)
    requires
        keys_wf(key),
    ensures
        r@ == seal_spec(b@, keys_view(key)),
        unseal_spec(r@, keys_view(key)) == Ok::<Seq<u8>, ConvertError>(b@),
        key is Some ==> is_base64_text(r@),
{
    match key {
        None => b,
        Some(km) => {
            let ct = aes_cbc_encrypt(km.key.as_slice(), km.iv.as_slice(), b.as_slice());
            match ct {
                Some(ct) => base64_encode(ct.as_slice()),
                None => b,
            }
        },
    }
}

/// Undoes `seal`.
fn unseal(f: Vec<u8>, key: Option<&KeyMaterial>) -> (r: Result<Vec<u8>, ConvertError>)
    requires
        keys_wf(key),
    ensures
        r matches Ok(v) ==> unseal_spec(f@, keys_view(key)) == Ok::<Seq<u8>, ConvertError>(v@),
        r matches Err(e) ==> unseal_spec(f@, keys_view(key)) == Err::<Seq<u8>, ConvertError>(e),
{
    match key {
        None => Ok(f),
        Some(km) => match base64_decode(f.as_slice()) {
            None => Err(ConvertError::Codec(CodecError::TextDecodeFailed)),
            Some(ct) => match aes_cbc_decrypt(km.key.as_slice(), km.iv.as_slice(), ct.as_slice()) {
                None => Err(ConvertError::Cipher(CipherError::DecryptFailed)),
                Some(pt) => Ok(pt),
            },
        },
    }
}

/// The container for an already compressed stream and an extension. It
/// opens back to both, provided that outside secure mode the extension holds
/// no newline.
pub fn build_container(compressed: &[u8], ext: &str, key: Option<&KeyMaterial>) -> (r: Vec<u8>)
    requires
        keys_wf(key),
    ensures
        r@ == container_spec(compressed@, encode_utf8(ext@), keys_view(key)),
        is_base64_text(seal_spec(base64_of(compressed@), keys_view(key))),
        key is Some ==> is_base64_text(seal_spec(encode_utf8(ext@), keys_view(key))),
        key is Some || no_newline(encode_utf8(ext@)) ==> open_spec(r@, keys_view(key)) == Ok::<
            (Seq<u8>, Seq<char>),
            ConvertError,
        >((compressed@, ext@)),
{
    let ext_bytes = ext.as_bytes();
    let mut eb: Vec<u8> = Vec::new();
    let mut i: usize = 0;
    while i < ext_bytes.len()
        invariant
            i <= ext_bytes@.len(),
            eb@ == ext_bytes@.take(i as int),
        decreases ext_bytes@.len() - i,
    {
        eb.push(ext_bytes[i]);
        i = i + 1;
        assert(eb@ =~= ext_bytes@.take(i as int));
    }
    assert(ext_bytes@.take(ext_bytes@.len() as int) =~= ext_bytes@);
    let text = base64_encode(compressed);
    let ef = seal(eb, key);
    let pf = seal(text, key);
    let r = frame(ef.as_slice(), pf.as_slice());
    proof {
        lemma_base64_no_newline(pf@);
        if key is Some {
            lemma_base64_no_newline(ef@);
        }
        if key is Some || no_newline(encode_utf8(ext@)) {
            lemma_unframe_frame(ef@, pf@);
        }
    }
    r
}

/// Encodes a file's bytes and its extension into a container. It always
/// succeeds, and decoding the container under the same key material gives both
/// back, provided that outside secure mode the extension holds no newline.
pub fn encode(raw: &[u8], ext: &str, key: Option<&KeyMaterial>) -> (r: Result<
    Vec<u8>,
    ConvertError,
>)
    requires
        keys_wf(key),
    ensures
        r is Ok,
        r matches Ok(c) ==> c@ == container_spec(gzip_of(raw@), encode_utf8(ext@), keys_view(key)),
        is_base64_text(seal_spec(base64_of(gzip_of(raw@)), keys_view(key))),
        key is Some ==> is_base64_text(seal_spec(encode_utf8(ext@), keys_view(key))),
        r matches Ok(c) ==> (key is Some || no_newline(encode_utf8(ext@)) ==> decode_spec(
            c@,
            keys_view(key),
        ) == Ok::<(Seq<u8>, Seq<char>), ConvertError>((raw@, ext@))),
{
    match gzip(raw) {
        None => Err(ConvertError::Codec(CodecError::CompressFailed)),
        Some(z) => Ok(build_container(z.as_slice(), ext, key)),
    }
}

/// Opens a container up to its compressed stream and its extension.
pub fn open_container(c: &[u8], key: Option<&KeyMaterial>) -> (r: Result<
    (Vec<u8>, String),
    ConvertError,
>)
    requires
        keys_wf(key),
    ensures
        r matches Ok((z, x)) ==> open_spec(c@, keys_view(key)) == Ok::<
            (Seq<u8>, Seq<char>),
            ConvertError,
        >((z@, x@)),
        r matches Err(e) ==> open_spec(c@, keys_view(key)) == Err::<
            (Seq<u8>, Seq<char>),
            ConvertError,
        >(e),
{
    let (e, p) = match unframe(c) {
        Ok(fields) => fields,
        Err(fe) => {
            return Err(ConvertError::Frame(fe));
        },
    };
    let eb = unseal(e, key)?;
    let ext = match utf8_text(eb) {
        Some(x) => x,
        None => {
            return Err(ConvertError::Codec(CodecError::ExtensionNotText));
        },
    };
    let text = unseal(p, key)?;
    match base64_decode(text.as_slice()) {
        None => Err(ConvertError::Codec(CodecError::TextDecodeFailed)),
        Some(z) => Ok((z, ext)),
    }
}

/// Decodes a container back to the original bytes and extension.
pub fn decode(c: &[u8], key: Option<&KeyMaterial>) -> (r: Result<Restored, ConvertError>)
    requires
        keys_wf(key),
    ensures
        r matches Ok(d) ==> decode_spec(c@, keys_view(key)) == Ok::<
            (Seq<u8>, Seq<char>),
            ConvertError,
        >((d.data@, d.extension@)),
        r matches Err(e) ==> decode_spec(c@, keys_view(key)) == Err::<
            (Seq<u8>, Seq<char>),
            ConvertError,
        >(e),
{
    let (z, extension) = open_container(c, key)?;
    match gunzip(z.as_slice()) {
        None => Err(ConvertError::Codec(CodecError::DecompressFailed)),
        Some(data) => Ok(Restored { data, extension }),
    }
}

} // verus!

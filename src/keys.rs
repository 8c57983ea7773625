//! Key material: a fresh random key and IV for each secure encode, exported
//! as two base64 fields and read back from them.

use vstd::prelude::*;

use crate::primitives::{
    base64_decode, base64_encode, base64_of, random_block, unbase64_of, BLOCK_LEN,
};

verus! {

#[derive(Debug, Clone, Copy, PartialEq, Eq, Structural)]
pub enum KeyError {
    /// The key or the IV field is absent.
    MissingField,
    /// A field is not valid base64.
    DecodeFailure,
}

#[derive(Debug, Clone, Copy, PartialEq, Eq, Structural)]
pub enum CipherError {
    /// A key or IV is not exactly one cipher block long.
    BadKeyLength,
    /// The ciphertext does not decrypt under the key material: wrong key or
    /// IV, corrupt data, or bad padding.
    DecryptFailed,
}

/// Why key material could not be had from its two fields.
#[derive(Debug, Clone, Copy, PartialEq, Eq, Structural)]
pub enum KeyMaterialError {
    Key(KeyError),
    Cipher(CipherError),
}

/// A symmetric key and an initialization vector.
#[derive(Debug)]
pub struct KeyMaterial {
    pub key: Vec<u8>,
    pub iv: Vec<u8>,
}

/// The two fields of a key store, or of a mapping given by the caller, each
/// base64 text when present.
#[derive(Debug)]
pub struct KeyFields {
    pub key: Option<Vec<u8>>,
    pub iv: Option<Vec<u8>>,
}

impl KeyMaterial {
    /// Both the key and the IV are one cipher block long.
    pub open spec fn wf(&self) -> bool {
        self.key@.len() == BLOCK_LEN && self.iv@.len() == BLOCK_LEN
    }

    pub open spec fn parts(&self) -> (Seq<u8>, Seq<u8>) {
        (self.key@, self.iv@)
    }

    /// Draws a fresh random key and IV.
    pub fn generate() -> (r: KeyMaterial)
        ensures
            r.wf(),
    {
        let key = random_block();
        let iv = random_block();
        KeyMaterial { key, iv }
    }

    /// The key and the IV as base64 text, in that order: what a key store
    /// holds. Reading those fields back gives this key material.
    pub fn to_fields(&self) -> (r: (Vec<u8>, Vec<u8>))
        ensures
            r.0@ == base64_of(self.key@),
            r.1@ == base64_of(self.iv@),
            self.wf() ==> key_material_spec(Some(r.0@), Some(r.1@)) == Ok::<
                (Seq<u8>, Seq<u8>),
                KeyMaterialError,
            >(self.parts()),
    {
        (base64_encode(self.key.as_slice()), base64_encode(self.iv.as_slice()))
    }
}

/// The key material that two fields give: each must be present, valid
/// base64, and decode to exactly one block.
pub open spec fn key_material_spec(key: Option<Seq<u8>>, iv: Option<Seq<u8>>) -> Result<
    (Seq<u8>, Seq<u8>),
    KeyMaterialError,
> {
    match (key, iv) {
        (Some(k), Some(v)) => match (unbase64_of(k), unbase64_of(v)) {
            (Some(kb), Some(vb)) => if kb.len() == BLOCK_LEN && vb.len() == BLOCK_LEN {
                Ok((kb, vb))
            } else {
                Err(KeyMaterialError::Cipher(CipherError::BadKeyLength))
            },
            _ => Err(KeyMaterialError::Key(KeyError::DecodeFailure)),
        },
        _ => Err(KeyMaterialError::Key(KeyError::MissingField)),
    }
}

pub open spec fn fields_view(f: KeyFields) -> (Option<Seq<u8>>, Option<Seq<u8>>) {
    (
        match f.key {
            Some(k) => Some(k@),
            None => None,
        },
        match f.iv {
            Some(v) => Some(v@),
            None => None,
        },
    )
}

pub open spec fn key_result_matches(
    r: Result<KeyMaterial, KeyMaterialError>,
    s: Result<(Seq<u8>, Seq<u8>), KeyMaterialError>,
) -> bool {
    match r {
        Ok(km) => km.wf() && s == Ok::<(Seq<u8>, Seq<u8>), KeyMaterialError>(km.parts()),
        Err(e) => s == Err::<(Seq<u8>, Seq<u8>), KeyMaterialError>(e),
    }
}

/// Reads key material from the two fields of a store.
pub fn load(fields: &KeyFields) -> (r: Result<KeyMaterial, KeyMaterialError>)
    ensures
        key_result_matches(r, key_material_spec(fields_view(*fields).0, fields_view(*fields).1)),
{
    let (k, v) = match (&fields.key, &fields.iv) {
        (Some(k), Some(v)) => (k, v),
        _ => {
            return Err(KeyMaterialError::Key(KeyError::MissingField));
        },
    };
    let kb = base64_decode(k.as_slice());
    let vb = base64_decode(v.as_slice());
    match (kb, vb) {
        (Some(kb), Some(vb)) => {
            if kb.len() == BLOCK_LEN && vb.len() == BLOCK_LEN {
                Ok(KeyMaterial { key: kb, iv: vb })
            } else {
                Err(KeyMaterialError::Cipher(CipherError::BadKeyLength))
            }
        },
        _ => Err(KeyMaterialError::Key(KeyError::DecodeFailure)),
    }
}

/// Key material for a decode: from the caller's own fields where they are
/// given, the store being then ignored; from the store's fields otherwise. A
/// store that could not be read counts as one with no fields.
pub fn resolve(explicit: Option<&KeyFields>, stored: Option<&KeyFields>) -> (r: Result<
    KeyMaterial,
    KeyMaterialError,
>)
    ensures
        explicit matches Some(f) ==> key_result_matches(
            r,
            key_material_spec(fields_view(*f).0, fields_view(*f).1),
        ),
        explicit is None ==> (stored matches Some(f) ==> key_result_matches(
            r,
            key_material_spec(fields_view(*f).0, fields_view(*f).1),
        )),
        explicit is None && stored is None ==> r == Err::<KeyMaterial, KeyMaterialError>(
            KeyMaterialError::Key(KeyError::MissingField),
        ),
{
    match explicit {
        Some(f) => load(f),
        None => match stored {
            Some(f) => load(f),
            None => Err(KeyMaterialError::Key(KeyError::MissingField)),
        },
    }
}

} // verus!

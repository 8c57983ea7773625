//! Whole conversions, short of the file system: everything that an encode or
//! a decode computes before its caller touches a file.

use vstd::prelude::*;
use vstd::utf8::encode_utf8;

use crate::codec::{
    container_spec, decode, decode_spec, encode, keys_view, keys_wf, seal_spec, ConvertError,
    NameError,
};
use crate::frame::no_newline;
use crate::keys::KeyMaterial;
use crate::lifecycle::{DecodeRun, DecodeStage, EncodeRun, EncodeStage};
use crate::naming::{
    backup_name, container_name, opt_view, restored_name, restored_name_spec, same_text,
    staging_name, stored_extension, trim_dots_spec,
};
use crate::primitives::{
    base64_of, gzip_of, is_base64_text, path_extension_of, path_with_extension_of,
};

verus! {

/// What an encode writes, and where.
#[derive(Debug)]
pub struct EncodePlan {
    /// The container's bytes.
    pub container: Vec<u8>,
    /// Where the container is written first.
    pub staging: String,
    /// Where the container ends up.
    pub target: String,
    /// Where the source is copied, if backups are on.
    pub backup: String,
    /// The file steps, in order.
    pub run: EncodeRun,
}

/// What a decode writes, and where.
#[derive(Debug)]
pub struct DecodePlan {
    /// The restored file's bytes.
    pub data: Vec<u8>,
    /// The extension that the container recorded.
    pub extension: String,
    /// The restored file's name.
    pub restored: String,
    /// The restored file's backup, removed at the end unless cleanup is off.
    pub backup: String,
    /// The file steps, in order.
    pub run: DecodeRun,
}

/// The extension that an encode stores for a source name and an override.
pub open spec fn stored_extension_spec(source: Seq<char>, ext_override: Option<Seq<char>>) -> Seq<
    char,
> {
    match ext_override {
        Some(o) => trim_dots_spec(o),
        None => match path_extension_of(source) {
            Some(e) => e,
            None => Seq::<char>::empty(),
        },
    }
}

/// An encode of `source` would write its staging copy, or its backup, over
/// the source itself.
pub open spec fn encode_names_clash(source: Seq<char>, make_backup: bool) -> bool {
    path_with_extension_of(source, "plagr.part"@) == source || (make_backup
        && path_with_extension_of(source, "bak"@) == source)
}

/// What a decode plans: the restored bytes, the recorded extension, the
/// restored name and the backup name; or why it cannot go ahead. It refuses
/// a restored name that is the container's own, and, with cleanup on, one
/// whose backup name is the restored name itself.
pub open spec fn decode_plan_spec(
    container: Seq<char>,
    bytes: Seq<u8>,
    keys: Option<(Seq<u8>, Seq<u8>)>,
    ext_override: Option<Seq<char>>,
    cleanup: bool,
) -> Result<(Seq<u8>, Seq<char>, Seq<char>, Seq<char>), ConvertError> {
    match decode_spec(bytes, keys) {
        Err(e) => Err(e),
        Ok((data, ext)) => match restored_name_spec(container, ext, ext_override) {
            None => Err(ConvertError::Name(NameError::ExtensionHasSeparator)),
            Some(n) => {
                let b = path_with_extension_of(n, "bak"@);
                if n == container || (cleanup && b == n) {
                    Err(ConvertError::Name(NameError::WouldOverwriteInput))
                } else {
                    Ok((data, ext, n, b))
                }
            },
        },
    }
}

/// Plans the encode of a source file with the given bytes: the container
/// (under fresh key material in secure mode), its names, and the file steps.
/// It fails only where a file it writes would have the source's name.
pub fn plan_to_plagr(
    source: &str,
    raw: &[u8],
    ext_override: Option<&str>,
    make_backup: bool,
    key: Option<&KeyMaterial>,
) -> (r: Result<EncodePlan, ConvertError>)
    requires
        keys_wf(key),
    ensures
        r is Ok <==> !encode_names_clash(source@, make_backup),
        r matches Err(e) ==> e == ConvertError::Name(NameError::WouldOverwriteInput),
        r matches Ok(p) ==> {
            let ext = stored_extension_spec(source@, opt_view(ext_override));
            &&& p.container@ == container_spec(gzip_of(raw@), encode_utf8(ext), keys_view(key))
            &&& is_base64_text(seal_spec(base64_of(gzip_of(raw@)), keys_view(key)))
            &&& key is Some ==> is_base64_text(seal_spec(encode_utf8(ext), keys_view(key)))
            &&& (key is Some || no_newline(encode_utf8(ext))) ==> decode_spec(
                p.container@,
                keys_view(key),
            ) == Ok::<(Seq<u8>, Seq<char>), ConvertError>((raw@, ext))
            &&& p.staging@ == path_with_extension_of(source@, "plagr.part"@)
            &&& p.target@ == path_with_extension_of(source@, "plagr"@)
            &&& p.backup@ == path_with_extension_of(source@, "bak"@)
            &&& p.run.wf() && p.run.stage == EncodeStage::Start && !p.run.failed
            &&& p.run.backup == make_backup
        },
{
    let staging = staging_name(source);
    let backup = backup_name(source);
    if same_text(staging.as_str(), source) || (make_backup && same_text(backup.as_str(), source)) {
        return Err(ConvertError::Name(NameError::WouldOverwriteInput));
    }
    let ext = stored_extension(source, ext_override);
    let container = encode(raw, ext.as_str(), key)?;
    Ok(
        EncodePlan {
            container,
            staging,
            target: container_name(source),
            backup,
            run: EncodeRun::new(make_backup),
        },
    )
}

/// Plans the decode of a container file with the given bytes: the restored
/// bytes, the restored name (the override, else the recorded extension), the
/// backup to clean up, and the file steps.
pub fn plan_from_plagr(
    container: &str,
    bytes: &[u8],
    key: Option<&KeyMaterial>,
    ext_override: Option<&str>,
    cleanup: bool,
) -> (r: Result<DecodePlan, ConvertError>)
    requires
        keys_wf(key),
    ensures
        r matches Ok(p) ==> decode_plan_spec(
            container@,
            bytes@,
            keys_view(key),
            opt_view(ext_override),
            cleanup,
        ) == Ok::<(Seq<u8>, Seq<char>, Seq<char>, Seq<char>), ConvertError>(
            (p.data@, p.extension@, p.restored@, p.backup@),
        ),
        r matches Err(e) ==> decode_plan_spec(
            container@,
            bytes@,
            keys_view(key),
            opt_view(ext_override),
            cleanup,
        ) == Err::<(Seq<u8>, Seq<char>, Seq<char>, Seq<char>), ConvertError>(e),
        r matches Ok(p) ==> p.run.wf() && p.run.stage == DecodeStage::Start && !p.run.failed
            && p.run.cleanup == cleanup,
{
    let restored = decode(bytes, key)?;
    let name = match restored_name(container, restored.extension.as_str(), ext_override) {
        Some(n) => n,
        None => {
            return Err(ConvertError::Name(NameError::ExtensionHasSeparator));
        },
    };
    let backup = backup_name(name.as_str());
    if same_text(name.as_str(), container) || (cleanup && same_text(
        backup.as_str(),
        name.as_str(),
    )) {
        return Err(ConvertError::Name(NameError::WouldOverwriteInput));
    }
    Ok(
        DecodePlan {
            data: restored.data,
            extension: restored.extension,
            restored: name,
            backup,
            run: DecodeRun::new(cleanup),
        },
    )
}

} // verus!

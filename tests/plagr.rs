use plagr::codec::{
    build_container, decode, encode, open_container, CodecError, ConvertError, NameError,
};
use plagr::convert::{plan_from_plagr, plan_to_plagr};
use plagr::frame::{frame, unframe, FrameError};
use plagr::keys::{load, resolve, CipherError, KeyError, KeyFields, KeyMaterial, KeyMaterialError};
use plagr::lifecycle::{DecodeRun, DecodeStep, EncodeRun, EncodeStep};
use plagr::naming::{
    backup_name, contains_separator, container_name, restored_name, same_text, staging_name,
    stored_extension, trim_leading_dots,
};

fn fixed_key() -> KeyMaterial {
    KeyMaterial { key: (0u8..16).collect(), iv: (100u8..116).collect() }
}

fn first_line(c: &[u8]) -> Vec<u8> {
    c.iter().take_while(|b| **b != b'\n').cloned().collect()
}

#[test]
fn frame_joins_with_one_newline() {
    assert_eq!(frame(b"txt", b"QUJD"), b"txt\nQUJD".to_vec());
    assert_eq!(frame(b"", b""), b"\n".to_vec());
}

#[test]
fn unframe_splits_on_first_newline_and_joins_the_rest() {
    assert_eq!(unframe(b"txt\nQUJD"), Ok((b"txt".to_vec(), b"QUJD".to_vec())));
    assert_eq!(unframe(b"md\nAB\nCD\n"), Ok((b"md".to_vec(), b"ABCD".to_vec())));
    assert_eq!(unframe(b"\n"), Ok((Vec::new(), Vec::new())));
}

#[test]
fn unframe_without_newline_is_malformed() {
    assert_eq!(unframe(b"no newline here"), Err(FrameError::Malformed));
    assert_eq!(unframe(b""), Err(FrameError::Malformed));
}

#[test]
fn unframe_undoes_frame() {
    let e = b"tar.gz".to_vec();
    let p = b"SGVsbG8=".to_vec();
    assert_eq!(unframe(&frame(&e, &p)), Ok((e, p)));
}

#[test]
fn plain_container_stores_base64_of_compressed_stream() {
    let c = build_container(b"abc", "x", None);
    assert_eq!(c, b"x\nYWJj".to_vec());
    assert_eq!(open_container(&c, None), Ok((b"abc".to_vec(), "x".to_string())));
}

#[test]
fn round_trip_plain() {
    let raw: Vec<u8> = (0..=255u8).chain(b"hello hello hello".iter().cloned()).collect();
    let c = encode(&raw, "bin", None).unwrap();
    assert_eq!(first_line(&c), b"bin".to_vec());
    assert_ne!(c[4..].to_vec(), raw);
    let d = decode(&c, None).unwrap();
    assert_eq!(d.data, raw);
    assert_eq!(d.extension, "bin");
}

#[test]
fn round_trip_secure_with_fresh_key() {
    let km = KeyMaterial::generate();
    assert_eq!(km.key.len(), 16);
    assert_eq!(km.iv.len(), 16);
    let raw = b"secret payload \x00\x01\x02".to_vec();
    let c = encode(&raw, "pdf", Some(&km)).unwrap();
    assert_ne!(first_line(&c), b"pdf".to_vec());
    let d = decode(&c, Some(&km)).unwrap();
    assert_eq!(d.data, raw);
    assert_eq!(d.extension, "pdf");
}

#[test]
fn fresh_keys_differ() {
    let a = KeyMaterial::generate();
    let b = KeyMaterial::generate();
    assert!(a.key != b.key || a.iv != b.iv);
}

#[test]
fn secure_decode_with_other_key_fails() {
    let km = fixed_key();
    let c = encode(b"some data", "txt", Some(&km)).unwrap();
    let other = KeyMaterial { key: vec![7u8; 16], iv: vec![9u8; 16] };
    assert!(decode(&c, Some(&other)).is_err());
}

#[test]
fn empty_txt_file_round_trips() {
    let plan = plan_to_plagr("notes.txt", b"", None, true, None).unwrap();
    assert_eq!(first_line(&plan.container), b"txt".to_vec());
    assert_eq!(plan.target, "notes.plagr");
    assert_eq!(plan.staging, "notes.plagr.part");
    assert_eq!(plan.backup, "notes.bak");
    let back = plan_from_plagr("notes.plagr", &plan.container, None, None, true).unwrap();
    assert!(back.data.is_empty());
    assert_eq!(back.extension, "txt");
    assert_eq!(back.restored, "notes.txt");
    assert_eq!(back.backup, "notes.bak");
}

#[test]
fn extension_override_is_stored() {
    let plan = plan_to_plagr("readme.txt", b"# title", Some(".md"), false, None).unwrap();
    assert_eq!(first_line(&plan.container), b"md".to_vec());
    let back = plan_from_plagr("readme.plagr", &plan.container, None, None, true).unwrap();
    assert_eq!(back.restored, "readme.md");
    assert_eq!(back.data, b"# title".to_vec());
}

#[test]
fn tampered_ciphertext_fails_to_decrypt() {
    let km = fixed_key();
    let plan = plan_to_plagr("data.bin", b"tamper with me", None, false, Some(&km)).unwrap();
    let text = String::from_utf8(plan.container.clone()).unwrap();
    let (ext_field, payload_field) = text.split_once('\n').unwrap();
    let mut ct = base64::decode(payload_field).unwrap();
    let n = ct.len();
    ct[n - 17] ^= 1;
    let tampered = format!("{}\n{}", ext_field, base64::encode(&ct));
    let r = plan_from_plagr("data.plagr", tampered.as_bytes(), Some(&km), None, true);
    assert_eq!(r.err(), Some(ConvertError::Cipher(CipherError::DecryptFailed)));
}

#[test]
fn no_cleanup_keeps_backup() {
    let plan = plan_to_plagr("a.txt", b"x", None, true, None).unwrap();
    let back = plan_from_plagr("a.plagr", &plan.container, None, None, false).unwrap();
    let mut run = back.run;
    let mut steps = Vec::new();
    loop {
        let s = run.next_step();
        steps.push(s);
        if s == DecodeStep::Done || s == DecodeStep::Stop {
            break;
        }
        run.record(true);
    }
    assert_eq!(steps, vec![DecodeStep::WriteRestored, DecodeStep::RemoveContainer, DecodeStep::Done]);
}

#[test]
fn decode_with_cleanup_removes_backup_last() {
    let mut run = DecodeRun::new(true);
    let mut steps = Vec::new();
    loop {
        let s = run.next_step();
        steps.push(s);
        if s == DecodeStep::Done || s == DecodeStep::Stop {
            break;
        }
        run.record(true);
    }
    assert_eq!(
        steps,
        vec![
            DecodeStep::WriteRestored,
            DecodeStep::RemoveContainer,
            DecodeStep::RemoveBackup,
            DecodeStep::Done
        ]
    );
}

#[test]
fn encode_steps_back_up_before_removing_source() {
    let mut run = EncodeRun::new(true);
    let mut steps = Vec::new();
    loop {
        let s = run.next_step();
        steps.push(s);
        if s == EncodeStep::Done || s == EncodeStep::Stop {
            break;
        }
        run.record(true);
    }
    assert_eq!(
        steps,
        vec![
            EncodeStep::CopyToBackup,
            EncodeStep::WriteStaging,
            EncodeStep::RemoveSource,
            EncodeStep::PromoteStaging,
            EncodeStep::Done
        ]
    );
    let mut plain = EncodeRun::new(false);
    assert_eq!(plain.next_step(), EncodeStep::WriteStaging);
    plain.record(true);
    assert_eq!(plain.next_step(), EncodeStep::RemoveSource);
}

#[test]
fn backup_failure_stops_before_touching_source() {
    let mut run = EncodeRun::new(true);
    assert_eq!(run.next_step(), EncodeStep::CopyToBackup);
    run.record(false);
    assert_eq!(run.next_step(), EncodeStep::Stop);
    run.record(true);
    assert_eq!(run.next_step(), EncodeStep::Stop);
}

#[test]
fn staging_failure_stops_before_removing_source() {
    let mut run = EncodeRun::new(false);
    run.record(false);
    assert_eq!(run.next_step(), EncodeStep::Stop);
}

#[test]
fn key_fields_round_trip() {
    let km = fixed_key();
    let (k, v) = km.to_fields();
    assert_eq!(k, b"AAECAwQFBgcICQoLDA0ODw==".to_vec());
    let back = load(&KeyFields { key: Some(k), iv: Some(v) }).unwrap();
    assert_eq!(back.key, km.key);
    assert_eq!(back.iv, km.iv);
}

#[test]
fn key_errors() {
    let (k, v) = fixed_key().to_fields();
    let missing = KeyFields { key: Some(k.clone()), iv: None };
    assert_eq!(load(&missing).err(), Some(KeyMaterialError::Key(KeyError::MissingField)));
    let bad = KeyFields { key: Some(b"not base64!".to_vec()), iv: Some(v.clone()) };
    assert_eq!(load(&bad).err(), Some(KeyMaterialError::Key(KeyError::DecodeFailure)));
    let short = KeyFields { key: Some(b"AAEC".to_vec()), iv: Some(v) };
    assert_eq!(load(&short).err(), Some(KeyMaterialError::Cipher(CipherError::BadKeyLength)));
}

#[test]
fn explicit_keys_take_precedence_over_store() {
    let (k, v) = fixed_key().to_fields();
    let explicit = KeyFields { key: Some(k), iv: Some(v) };
    let broken_store = KeyFields { key: None, iv: None };
    let km = resolve(Some(&explicit), Some(&broken_store)).unwrap();
    assert_eq!(km.key, fixed_key().key);
    assert_eq!(
        resolve(None, Some(&broken_store)).err(),
        Some(KeyMaterialError::Key(KeyError::MissingField))
    );
    assert_eq!(resolve(None, None).err(), Some(KeyMaterialError::Key(KeyError::MissingField)));
    let km2 = resolve(None, Some(&explicit)).unwrap();
    assert_eq!(km2.iv, fixed_key().iv);
}

#[test]
fn decode_errors_by_stage() {
    assert_eq!(decode(b"txt", None).err(), Some(ConvertError::Frame(FrameError::Malformed)));
    assert_eq!(
        decode(b"txt\n!!!", None).err(),
        Some(ConvertError::Codec(CodecError::TextDecodeFailed))
    );
    assert_eq!(
        decode(b"txt\nYWJj", None).err(),
        Some(ConvertError::Codec(CodecError::DecompressFailed))
    );
    assert_eq!(
        decode(b"\xff\xfe\nYWJj", None).err(),
        Some(ConvertError::Codec(CodecError::ExtensionNotText))
    );
    let km = fixed_key();
    assert_eq!(
        decode(b"txt\nYWJj", Some(&km)).err(),
        Some(ConvertError::Codec(CodecError::TextDecodeFailed))
    );
    assert_eq!(
        decode(b"YWJj\nYWJj", Some(&km)).err(),
        Some(ConvertError::Cipher(CipherError::DecryptFailed))
    );
}

#[test]
fn names() {
    assert_eq!(container_name("dir/a.txt"), "dir/a.plagr");
    assert_eq!(staging_name("a.txt"), "a.plagr.part");
    assert_eq!(backup_name("a.txt"), "a.bak");
    assert_eq!(restored_name("a.plagr", "txt", None), Some("a.txt".to_string()));
    assert_eq!(restored_name("a.plagr", "txt", Some("..md")), Some("a.md".to_string()));
    assert_eq!(restored_name("a.plagr", "x/y", None), None);
    assert_eq!(restored_name("a.plagr", "txt", Some("a/b")), None);
    assert_eq!(trim_leading_dots("..md"), "md");
    assert_eq!(trim_leading_dots("tar.gz"), "tar.gz");
    assert_eq!(trim_leading_dots(""), "");
    assert_eq!(stored_extension("Makefile", None), "");
    assert_eq!(stored_extension("a.tar.gz", None), "gz");
    assert_eq!(stored_extension("a.txt", Some(".md")), "md");
}

#[test]
fn text_helpers() {
    assert!(contains_separator("a/b"));
    assert!(!contains_separator("tar.gz"));
    assert!(same_text("a.txt", "a.txt"));
    assert!(!same_text("a.txt", "a.txu"));
    assert!(!same_text("a.txt", "a.tx"));
}

#[test]
fn encode_of_readme_without_extension() {
    let plan = plan_to_plagr("README", b"read me", None, true, None).unwrap();
    assert_eq!(first_line(&plan.container), Vec::<u8>::new());
    assert_eq!(plan.target, "README.plagr");
    assert_eq!(plan.backup, "README.bak");
    let back = plan_from_plagr("README.plagr", &plan.container, None, None, true).unwrap();
    assert_eq!(back.restored, "README");
    assert_eq!(back.data, b"read me".to_vec());
}

#[test]
fn encode_refuses_backup_over_source() {
    assert_eq!(
        plan_to_plagr("x.bak", b"data", None, true, None).err(),
        Some(ConvertError::Name(NameError::WouldOverwriteInput))
    );
    let plan = plan_to_plagr("x.bak", b"data", None, false, None).unwrap();
    assert_eq!(first_line(&plan.container), b"bak".to_vec());
}

#[test]
fn decode_refuses_restored_name_over_container() {
    let plan = plan_to_plagr("x.plagr", b"data", None, false, None).unwrap();
    assert_eq!(
        plan_from_plagr("x.plagr", &plan.container, None, None, true).err(),
        Some(ConvertError::Name(NameError::WouldOverwriteInput))
    );
    let other = plan_from_plagr("x.plagr", &plan.container, None, Some("txt"), true).unwrap();
    assert_eq!(other.restored, "x.txt");
}

#[test]
fn decode_refuses_cleanup_of_restored_file() {
    let plan = plan_to_plagr("x.bak", b"data", None, false, None).unwrap();
    assert_eq!(
        plan_from_plagr("x.plagr", &plan.container, None, None, true).err(),
        Some(ConvertError::Name(NameError::WouldOverwriteInput))
    );
    let kept = plan_from_plagr("x.plagr", &plan.container, None, None, false).unwrap();
    assert_eq!(kept.restored, "x.bak");
}

#[test]
fn decode_refuses_extension_with_separator() {
    let c = encode(b"data", "a/b", None).unwrap();
    assert_eq!(
        plan_from_plagr("x.plagr", &c, None, None, true).err(),
        Some(ConvertError::Name(NameError::ExtensionHasSeparator))
    );
    assert_eq!(
        plan_from_plagr("x.plagr", &c, None, Some("a/b"), true).err(),
        Some(ConvertError::Name(NameError::ExtensionHasSeparator))
    );
}

//! The single-file plugin: the .NET bridge assembly with the native plugin
//! appended behind it, followed by a footer from which the bridge finds the
//! native part again.
//!
//! Layout: bridge template, native DLL, SHA-256 of the native DLL (32
//! bytes), native length (`u64`, little endian), footer version (`u32`,
//! little endian), magic (16 bytes).

use vstd::prelude::*;
use vstd::bytes::{
    spec_u32_from_le_bytes, spec_u32_to_le_bytes, spec_u64_from_le_bytes, spec_u64_to_le_bytes,
    u32_to_le_bytes, u64_to_le_bytes, lemma_auto_spec_u32_to_from_le_bytes,
    lemma_auto_spec_u64_to_from_le_bytes,
};
use crate::hashing::{append_bytes, sha256, sha256_spec};

verus! {

/// The version of the footer layout.
pub const FOOTER_VERSION: u32 = 1;

/// The length of the footer behind the native DLL.
pub const FOOTER_LEN: usize = 60;

/// The magic that ends every packaged plugin: `DMJRSOVL00000001`.
pub open spec fn overlay_magic_spec() -> Seq<u8> {
    seq![
        0x44u8, 0x4d, 0x4a, 0x52, 0x53, 0x4f, 0x56, 0x4c, 0x30, 0x30, 0x30, 0x30, 0x30, 0x30,
        0x30, 0x31,
    ]
}

/// The magic that ends every packaged plugin.
pub fn overlay_magic() -> (res: Vec<u8>)
    ensures
        res@ == overlay_magic_spec(),
{
    let v: Vec<u8> = vec![
        0x44u8, 0x4d, 0x4a, 0x52, 0x53, 0x4f, 0x56, 0x4c, 0x30, 0x30, 0x30, 0x30, 0x30, 0x30,
        0x30, 0x31,
    ];
    assert(v@ =~= overlay_magic_spec());
    v
}

/// The footer that follows a native DLL of the given bytes.
pub open spec fn footer_spec(native: Seq<u8>) -> Seq<u8> {
    sha256_spec(native) + spec_u64_to_le_bytes(native.len() as u64) + spec_u32_to_le_bytes(
        FOOTER_VERSION,
    ) + overlay_magic_spec()
}

/// The bytes of a single-file plugin.
pub open spec fn single_file_plugin_spec(template: Seq<u8>, native: Seq<u8>) -> Seq<u8> {
    template + native + footer_spec(native)
}

/// Packs the bridge `template` and the `native` DLL into one plugin file.
pub fn single_file_plugin(template: &[u8], native: &[u8]) -> (res: Vec<u8>)
    ensures
        res@ == single_file_plugin_spec(template@, native@),
        footer_recovers(res@, template@, native@),
{
    let mut out: Vec<u8> = Vec::new();
    append_bytes(&mut out, template);
    append_bytes(&mut out, native);
    let hash = sha256(native);
    let native_len = native.len();
    assert(native@.len() == native_len);
    proof {
        lemma_footer_recovers_parts(template@, native@);
    }
    append_bytes(&mut out, hash.as_slice());
    let len_bytes = u64_to_le_bytes(native.len() as u64);
    append_bytes(&mut out, len_bytes.as_slice());
    let version_bytes = u32_to_le_bytes(FOOTER_VERSION);
    append_bytes(&mut out, version_bytes.as_slice());
    let magic = overlay_magic();
    append_bytes(&mut out, magic.as_slice());
    out
}

/// The magic that a file ends with, when it is long enough.
pub open spec fn trailing_magic(file: Seq<u8>) -> Seq<u8> {
    file.subrange(file.len() - 16, file.len() as int)
}

/// The footer version that a file records.
pub open spec fn recorded_version(file: Seq<u8>) -> u32 {
    spec_u32_from_le_bytes(file.subrange(file.len() - 20, file.len() - 16))
}

/// The native length that a file records.
pub open spec fn recorded_native_len(file: Seq<u8>) -> u64 {
    spec_u64_from_le_bytes(file.subrange(file.len() - 28, file.len() - 20))
}

/// The checksum that a file records.
pub open spec fn recorded_hash(file: Seq<u8>) -> Seq<u8> {
    file.subrange(file.len() - 60, file.len() - 28)
}

/// The native DLL that a file holds according to its footer.
pub open spec fn recorded_native(file: Seq<u8>) -> Seq<u8> {
    file.subrange(file.len() - 60 - recorded_native_len(file), file.len() - 60)
}

/// The bridge template that a file holds according to its footer.
pub open spec fn recorded_template(file: Seq<u8>) -> Seq<u8> {
    file.subrange(0, file.len() - 60 - recorded_native_len(file))
}

/// What reading a file from its end gives back.
pub open spec fn footer_recovers(file: Seq<u8>, template: Seq<u8>, native: Seq<u8>) -> bool {
    &&& file.len() == template.len() + native.len() + 60
    &&& trailing_magic(file) == overlay_magic_spec()
    &&& recorded_version(file) == FOOTER_VERSION
    &&& recorded_native_len(file) == native.len()
    &&& recorded_hash(file) == sha256_spec(native)
    &&& recorded_native(file) == native
    &&& recorded_template(file) == template
}

proof fn lemma_footer_recovers_parts(template: Seq<u8>, native: Seq<u8>)
    requires
        native.len() <= u64::MAX,
        sha256_spec(native).len() == 32,
    ensures
        footer_recovers(single_file_plugin_spec(template, native), template, native),
{
    lemma_auto_spec_u64_to_from_le_bytes();
    lemma_auto_spec_u32_to_from_le_bytes();
    let file = single_file_plugin_spec(template, native);
    let h = sha256_spec(native);
    let l = spec_u64_to_le_bytes(native.len() as u64);
    let v = spec_u32_to_le_bytes(FOOTER_VERSION);
    let m = overlay_magic_spec();
    let t = template.len() as int;
    let n = native.len() as int;
    assert(file.len() == t + n + 60);
    assert(trailing_magic(file) =~= m);
    assert(file.subrange(file.len() - 20, file.len() - 16) =~= v);
    assert(file.subrange(file.len() - 28, file.len() - 20) =~= l);
    assert(recorded_hash(file) =~= h);
    assert(recorded_native(file) =~= native);
    assert(recorded_template(file) =~= template);
}

} // verus!

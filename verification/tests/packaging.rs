use danmuji::bridge::{
    bridge_cache_key, bridge_csproj, bridge_output_components, checkout_plan, escape_xml_attr,
    sdk_checkout_key, sdk_csproj, short_revision, CheckoutStep, BRIDGE_CSPROJ_HEAD,
    BRIDGE_CSPROJ_TAIL,
};
use danmuji::hashing::{hash_hex, hex_char, to_hex};
use danmuji::overlay::{overlay_magic, single_file_plugin, FOOTER_LEN, FOOTER_VERSION};
use sha2::{Digest, Sha256};

#[test]
fn hex_digits() {
    assert_eq!(hex_char(0), '0');
    assert_eq!(hex_char(9), '9');
    assert_eq!(hex_char(10), 'a');
    assert_eq!(hex_char(15), 'f');
    assert_eq!(to_hex(&[0x00, 0x7f, 0xbe, 0xef]), "007fbeef");
    assert_eq!(to_hex(&[]), "");
}

#[test]
fn sha256_of_abc() {
    assert_eq!(
        hash_hex(&[b"abc"]),
        "ba7816bf8f01cfea414140de5dae2223b00361a396177a9cb410ff61f20015ad"
    );
    assert_eq!(
        hash_hex(&[]),
        "e3b0c44298fc1c149afbf4c8996fb92427ae41e4649b934ca495991b7852b855"
    );
    assert_eq!(
        hash_hex(&[b"a", b"", b"bc"]),
        "ba7816bf8f01cfea414140de5dae2223b00361a396177a9cb410ff61f20015ad"
    );
}

fn reference_hash(parts: &[&[u8]]) -> String {
    let mut hasher = Sha256::new();
    for part in parts {
        hasher.update(part);
    }
    hasher
        .finalize()
        .iter()
        .map(|b| format!("{b:02x}"))
        .collect()
}

#[test]
fn cache_keys_hash_their_inputs() {
    assert_eq!(
        sdk_checkout_key("https://example/repo.git", "v1.0"),
        reference_hash(&[b"https://example/repo.git", b"\0", b"v1.0"])
    );
    assert_eq!(
        bridge_cache_key("r", "v", "abc", "plugin", "native", "scope"),
        reference_hash(&[
            b"r", b"\0", b"v", b"\0", b"abc", b"\0", b"5", b"\0", b"plugin", b"\0", b"native",
            b"\0", b"scope"
        ])
    );
    assert_ne!(
        bridge_cache_key("r", "v", "abc", "plugin", "native", "scope"),
        bridge_cache_key("r", "v", "abd", "plugin", "native", "scope")
    );
}

#[test]
fn cache_keys_are_hex_names() {
    for key in [
        sdk_checkout_key("", ""),
        sdk_checkout_key("https://github.com/copyliu/bililive_dm.git", "1.0.0"),
        bridge_cache_key("", "", "", "", "", ""),
    ] {
        assert_eq!(key.len(), 64);
        assert!(key.chars().all(|c| c.is_ascii_digit() || ('a'..='f').contains(&c)));
    }
}

#[test]
fn short_revisions() {
    assert_eq!(short_revision("0123456789abcdef0123"), "0123456789ab");
    assert_eq!(short_revision("0123456789ab"), "0123456789ab");
    assert_eq!(short_revision("abc"), "abc");
    assert_eq!(short_revision("01234567890é"), "01234567890é");
}

#[test]
fn xml_attributes_are_escaped() {
    assert_eq!(escape_xml_attr("a&b\"c<d>e"), "a&amp;b&quot;c&lt;d&gt;e");
    assert_eq!(escape_xml_attr("C:\\sdk\\DMPlugin.cs"), "C:\\sdk\\DMPlugin.cs");
    assert_eq!(escape_xml_attr("&amp;"), "&amp;amp;");
    let escaped = escape_xml_attr("<Project Include=\"a\"> & \"b\" </Project>");
    assert!(!escaped.contains('"') && !escaped.contains('<') && !escaped.contains('>'));
}

#[test]
fn bridge_project_refers_to_the_sdk_project() {
    let text = bridge_csproj("/cache/a&b/sdk/BilibiliDM_PluginFramework.csproj");
    assert_eq!(
        text,
        format!(
            "{}{}{}",
            BRIDGE_CSPROJ_HEAD, "/cache/a&amp;b/sdk/BilibiliDM_PluginFramework.csproj", BRIDGE_CSPROJ_TAIL
        )
    );
    assert!(text.contains("<ProjectReference Include=\"/cache/a&amp;b/sdk/BilibiliDM_PluginFramework.csproj\" Private=\"false\" />"));
    assert!(text.starts_with("<Project Sdk=\"Microsoft.NET.Sdk\">\n"));
    assert!(text.ends_with("</Project>\n"));
}

#[test]
fn sdk_project_lists_the_sources() {
    let text = sdk_csproj("/s/DMPlugin.cs", "/s/DanmakuModel.cs", "/s/Events.cs", "/s/GiftRank.cs", "/s/Properties/Annotations.cs", "/s/<x>.cs");
    assert!(text.contains("<Compile Include=\"/s/DMPlugin.cs\" Link=\"DMPlugin.cs\" />"));
    assert!(text.contains("<Compile Include=\"/s/Properties/Annotations.cs\" Link=\"Properties\\Annotations.cs\" />"));
    assert!(text.contains("<Compile Include=\"/s/&lt;x&gt;.cs\" Link=\"Properties\\AssemblyInfo.cs\" />"));
    assert!(text.contains("<AssemblyName>BilibiliDM_PluginFramework</AssemblyName>"));
}

#[test]
fn single_file_plugin_layout() {
    let template = b"MZ-template".to_vec();
    let native = b"native-dll-bytes".to_vec();
    let file = single_file_plugin(&template, &native);
    assert_eq!(file.len(), template.len() + native.len() + FOOTER_LEN);
    assert_eq!(&file[..template.len()], &template[..]);
    assert_eq!(&file[template.len()..template.len() + native.len()], &native[..]);
    let footer = &file[template.len() + native.len()..];
    assert_eq!(&footer[..32], &Sha256::digest(&native)[..]);
    assert_eq!(&footer[32..40], &(native.len() as u64).to_le_bytes());
    assert_eq!(&footer[40..44], &FOOTER_VERSION.to_le_bytes());
    assert_eq!(&footer[44..], b"DMJRSOVL00000001");
    assert_eq!(overlay_magic(), b"DMJRSOVL00000001".to_vec());
}

#[test]
fn single_file_plugin_of_empty_parts() {
    let file = single_file_plugin(&[], &[]);
    assert_eq!(file.len(), FOOTER_LEN);
    assert_eq!(&file[32..40], &[0u8; 8]);
}

#[test]
fn checkout_plans() {
    assert_eq!(checkout_plan(false, true, true), vec![]);
    assert_eq!(checkout_plan(true, true, true), vec![CheckoutStep::RemoveDir, CheckoutStep::CreateDir, CheckoutStep::GitInit, CheckoutStep::AddRemote, CheckoutStep::FetchCheckout]);
    assert_eq!(checkout_plan(false, true, false), vec![CheckoutStep::RemoveDir, CheckoutStep::CreateDir, CheckoutStep::GitInit, CheckoutStep::AddRemote, CheckoutStep::FetchCheckout]);
    assert_eq!(checkout_plan(false, false, false), vec![CheckoutStep::CreateDir, CheckoutStep::GitInit, CheckoutStep::AddRemote, CheckoutStep::FetchCheckout]);
    assert_eq!(checkout_plan(true, false, false), vec![CheckoutStep::CreateDir, CheckoutStep::GitInit, CheckoutStep::AddRemote, CheckoutStep::FetchCheckout]);
}

#[test]
fn bridge_output_path() {
    assert_eq!(
        bridge_output_components("k"),
        vec!["bridge", "k", "project", "bin", "Release", "net461", "DanmujiRustBridge.dll"]
    );
}

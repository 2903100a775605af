//! The .NET bridge side of packaging: cache keys for the SDK checkout and
//! the built bridge, the MSBuild project texts, and the version-file
//! upgrade.

use vstd::prelude::*;
use vstd::string::StringSliceAdditionalSpecFns;
use crate::text::{chars_of, push_char, same_text};
use crate::model::text_of;
use crate::version::{
    latest_numeric_tag, latest_tag_spec, lemma_latest_tag_is_plain, lemma_version_file_round_trip,
    parse_version_text, version_file_contents, version_in_text, VersionError,
};
use crate::text::trim_spec;
use crate::hashing::{concat_parts, hash_hex, is_hex_digit, sha256_spec, to_hex_spec};

verus! {

/// The default repository of the B站弹幕姬 plugin SDK.
pub const DEFAULT_SDK_REPO: &'static str = "https://github.com/copyliu/bililive_dm.git";

/// The name of the file that pins a project's SDK version.
pub const VERSION_FILE: &'static str = ".danmuji-version";

/// The file name of the built bridge assembly.
pub const BRIDGE_DLL: &'static str = "DanmujiRustBridge.dll";

/// The revision of the bridge template; part of the bridge cache key.
pub const BRIDGE_TEMPLATE_VERSION: &'static str = "5";

/// The directory of the SDK sources inside an SDK checkout.
pub const SDK_SOURCE_DIR: &'static str = "BilibiliDM_PluginFramework";

/// The bytes hashed for the cache directory of an SDK checkout: the
/// repository and the version, separated by a zero byte.
pub open spec fn checkout_key_input(sdk_repo: &str, sdk_version: &str) -> Seq<u8> {
    sdk_repo.spec_bytes() + seq![0u8] + sdk_version.spec_bytes()
}

/// The name of the cache directory that holds the checkout of `sdk_version`
/// from `sdk_repo`: the hexadecimal SHA-256 of both.
pub fn sdk_checkout_key(sdk_repo: &str, sdk_version: &str) -> (res: String)
    ensures
        res@ == to_hex_spec(sha256_spec(checkout_key_input(sdk_repo, sdk_version))),
        res@.len() == 64,
        forall|i: int| 0 <= i < res@.len() ==> is_hex_digit(#[trigger] res@[i]),
{
    let nul: Vec<u8> = vec![0u8];
    let mut parts: Vec<&[u8]> = Vec::new();
    parts.push(sdk_repo.as_bytes());
    parts.push(nul.as_slice());
    parts.push(sdk_version.as_bytes());
    assert(concat_parts(parts@) =~= checkout_key_input(sdk_repo, sdk_version)) by {
        reveal_with_fuel(concat_parts, 4);
    }
    hash_hex(parts.as_slice())
}

/// The bytes hashed for the cache key of a built bridge: the repository,
/// the SDK version, the checked-out revision, the template revision and the
/// three C# sources of the bridge, each separated by a zero byte.
pub open spec fn bridge_key_input(
    sdk_repo: &str,
    sdk_version: &str,
    revision: &str,
    plugin_cs: &str,
    native_cs: &str,
    ffi_scope_cs: &str,
) -> Seq<u8> {
    sdk_repo.spec_bytes() + seq![0u8] + sdk_version.spec_bytes() + seq![0u8]
        + revision.spec_bytes() + seq![0u8] + BRIDGE_TEMPLATE_VERSION.spec_bytes() + seq![0u8]
        + plugin_cs.spec_bytes() + seq![0u8] + native_cs.spec_bytes() + seq![0u8]
        + ffi_scope_cs.spec_bytes()
}

/// The cache key of a built bridge: the hexadecimal SHA-256 of everything
/// that goes into it, so that any change rebuilds it.
pub fn bridge_cache_key(
    sdk_repo: &str,
    sdk_version: &str,
    revision: &str,
    plugin_cs: &str,
    native_cs: &str,
    ffi_scope_cs: &str,
) -> (res: String)
    ensures
        res@ == to_hex_spec(
            sha256_spec(
                bridge_key_input(sdk_repo, sdk_version, revision, plugin_cs, native_cs, ffi_scope_cs),
            ),
        ),
        res@.len() == 64,
        forall|i: int| 0 <= i < res@.len() ==> is_hex_digit(#[trigger] res@[i]),
{
    let nul: Vec<u8> = vec![0u8];
    let mut parts: Vec<&[u8]> = Vec::new();
    parts.push(sdk_repo.as_bytes());
    parts.push(nul.as_slice());
    parts.push(sdk_version.as_bytes());
    parts.push(nul.as_slice());
    parts.push(revision.as_bytes());
    parts.push(nul.as_slice());
    parts.push(BRIDGE_TEMPLATE_VERSION.as_bytes());
    parts.push(nul.as_slice());
    parts.push(plugin_cs.as_bytes());
    parts.push(nul.as_slice());
    parts.push(native_cs.as_bytes());
    parts.push(nul.as_slice());
    parts.push(ffi_scope_cs.as_bytes());
    assert(concat_parts(parts@) =~= bridge_key_input(
        sdk_repo,
        sdk_version,
        revision,
        plugin_cs,
        native_cs,
        ffi_scope_cs,
    )) by {
        reveal_with_fuel(concat_parts, 14);
    }
    hash_hex(parts.as_slice())
}

/// The first twelve bytes of a revision, for messages; the whole revision
/// when it is shorter or twelve bytes would split a character.
pub fn short_revision(revision: &str) -> (res: &str)
    ensures
        res.spec_bytes() == if revision.len() >= 12 && vstd::utf8::is_char_boundary(
            revision.spec_bytes(),
            12,
        ) {
            revision.spec_bytes().take(12)
        } else {
            revision.spec_bytes()
        },
{
    if revision.len() >= 12 && revision.is_char_boundary(12) {
        let (head, _tail) = revision.split_at(12);
        assert(head.spec_bytes() =~= revision.spec_bytes().take(12));
        head
    } else {
        revision
    }
}


/// What one character becomes inside a double-quoted XML attribute.
pub open spec fn escape_xml_char(c: char) -> Seq<char> {
    if c == '&' {
        seq!['&', 'a', 'm', 'p', ';']
    } else if c == '"' {
        seq!['&', 'q', 'u', 'o', 't', ';']
    } else if c == '<' {
        seq!['&', 'l', 't', ';']
    } else if c == '>' {
        seq!['&', 'g', 't', ';']
    } else {
        seq![c]
    }
}

/// `s` with `&`, `"`, `<` and `>` replaced by their XML entities.
pub open spec fn escape_xml_spec(s: Seq<char>) -> Seq<char>
    decreases s.len(),
{
    if s.len() == 0 {
        Seq::empty()
    } else {
        escape_xml_spec(s.drop_last()) + escape_xml_char(s.last())
    }
}

fn push_chars(out: &mut String, chars: &Vec<char>)
    ensures
        final(out)@ == old(out)@ + chars@,
{
    let ghost start = out@;
    let n = chars.len();
    for i in 0..n
        invariant
            n == chars@.len(),
            out@ == start + chars@.take(i as int),
    {
        push_char(out, chars[i]);
        assert(chars@.take(i + 1) =~= chars@.take(i as int).push(chars@[i as int]));
    }
    assert(chars@.take(n as int) =~= chars@);
}

/// Escapes `value` for use inside a double-quoted XML attribute.
pub fn escape_xml_attr(value: &str) -> (res: String)
    ensures
        res@ == escape_xml_spec(value@),
{
    let mut out = String::new();
    let chars = chars_of(value);
    let n = chars.len();
    for i in 0..n
        invariant
            n == value@.len(),
            chars@ == value@,
            out@ == escape_xml_spec(value@.take(i as int)),
    {
        let c = chars[i];
        let ghost t = value@.take(i + 1);
        assert(t.drop_last() =~= value@.take(i as int));
        assert(t.last() == c);
        let piece: Vec<char> = if c == '&' {
            vec!['&', 'a', 'm', 'p', ';']
        } else if c == '"' {
            vec!['&', 'q', 'u', 'o', 't', ';']
        } else if c == '<' {
            vec!['&', 'l', 't', ';']
        } else if c == '>' {
            vec!['&', 'g', 't', ';']
        } else {
            vec![c]
        };
        assert(piece@ =~= escape_xml_char(c));
        push_chars(&mut out, &piece);
    }
    assert(value@.take(n as int) =~= value@);
    out
}

/// No escaped text holds a double quote or an angle bracket, so it cannot
/// end the attribute or open a tag.
pub proof fn lemma_escaped_attr_is_inert(s: Seq<char>)
    ensures
        forall|i: int|
            0 <= i < escape_xml_spec(s).len() ==> #[trigger] escape_xml_spec(s)[i] != '"'
                && escape_xml_spec(s)[i] != '<' && escape_xml_spec(s)[i] != '>',
    decreases s.len(),
{
    if s.len() > 0 {
        lemma_escaped_attr_is_inert(s.drop_last());
        let p = escape_xml_spec(s.drop_last());
        let q = escape_xml_char(s.last());
        assert forall|i: int| 0 <= i < escape_xml_spec(s).len() implies #[trigger] escape_xml_spec(s)[i] != '"'
            && escape_xml_spec(s)[i] != '<' && escape_xml_spec(s)[i] != '>' by {
            if i >= p.len() {
                assert(escape_xml_spec(s)[i] == q[i - p.len()]);
            } else {
                assert(escape_xml_spec(s)[i] == p[i]);
            }
        }
    }
}


/// One of the four characters that an XML attribute escapes.
pub open spec fn is_xml_special(c: char) -> bool {
    c == '&' || c == '"' || c == '<' || c == '>'
}

/// Escaping a text is escaping its parts: it works character by character.
pub proof fn lemma_escape_xml_concat(a: Seq<char>, b: Seq<char>)
    ensures
        escape_xml_spec(a + b) == escape_xml_spec(a) + escape_xml_spec(b),
    decreases b.len(),
{
    if b.len() == 0 {
        assert(a + b =~= a);
        assert(escape_xml_spec(a) + escape_xml_spec(b) =~= escape_xml_spec(a));
    } else {
        lemma_escape_xml_concat(a, b.drop_last());
        assert((a + b).drop_last() =~= a + b.drop_last());
        assert((a + b).last() == b.last());
        assert(escape_xml_spec(a + b) =~= escape_xml_spec(a) + escape_xml_spec(b));
    }
}

/// The four escaped characters become `&amp;`, `&quot;`, `&lt;` and `&gt;`;
/// every other character is kept as it is.
pub proof fn lemma_escape_xml_char_table(c: char)
    ensures
        escape_xml_spec(seq!['&']) == seq!['&', 'a', 'm', 'p', ';'],
        escape_xml_spec(seq!['"']) == seq!['&', 'q', 'u', 'o', 't', ';'],
        escape_xml_spec(seq!['<']) == seq!['&', 'l', 't', ';'],
        escape_xml_spec(seq!['>']) == seq!['&', 'g', 't', ';'],
        !is_xml_special(c) ==> escape_xml_spec(seq![c]) == seq![c],
{
    reveal_with_fuel(escape_xml_spec, 2);
    assert(escape_xml_spec(seq!['&']) =~= seq!['&', 'a', 'm', 'p', ';']);
    assert(escape_xml_spec(seq!['"']) =~= seq!['&', 'q', 'u', 'o', 't', ';']);
    assert(escape_xml_spec(seq!['<']) =~= seq!['&', 'l', 't', ';']);
    assert(escape_xml_spec(seq!['>']) =~= seq!['&', 'g', 't', ';']);
    assert(escape_xml_spec(seq![c]) =~= escape_xml_char(c));
}

/// A text without `&`, `"`, `<` or `>` is kept as it is.
pub proof fn lemma_escape_xml_plain(s: Seq<char>)
    requires
        forall|i: int| 0 <= i < s.len() ==> !is_xml_special(#[trigger] s[i]),
    ensures
        escape_xml_spec(s) == s,
    decreases s.len(),
{
    if s.len() > 0 {
        lemma_escape_xml_plain(s.drop_last());
        assert(!is_xml_special(s[s.len() - 1]));
        assert(s.drop_last().push(s.last()) =~= s);
        assert(escape_xml_spec(s) =~= s);
    }
}

/// Reading the entities `&amp;`, `&quot;`, `&lt;` and `&gt;` of an attribute
/// value back as the characters they stand for.
pub open spec fn unescape_xml_spec(s: Seq<char>) -> Seq<char>
    decreases s.len(),
{
    if s.len() == 0 {
        Seq::empty()
    } else if s.len() >= 5 && s.take(5) == seq!['&', 'a', 'm', 'p', ';'] {
        seq!['&'] + unescape_xml_spec(s.skip(5))
    } else if s.len() >= 6 && s.take(6) == seq!['&', 'q', 'u', 'o', 't', ';'] {
        seq!['"'] + unescape_xml_spec(s.skip(6))
    } else if s.len() >= 4 && s.take(4) == seq!['&', 'l', 't', ';'] {
        seq!['<'] + unescape_xml_spec(s.skip(4))
    } else if s.len() >= 4 && s.take(4) == seq!['&', 'g', 't', ';'] {
        seq!['>'] + unescape_xml_spec(s.skip(4))
    } else {
        seq![s[0]] + unescape_xml_spec(s.skip(1))
    }
}

/// Reading the escaped text back gives the original text: escaping loses
/// and adds nothing.
pub proof fn lemma_unescape_escape_xml(s: Seq<char>)
    ensures
        unescape_xml_spec(escape_xml_spec(s)) == s,
    decreases s.len(),
{
    if s.len() > 0 {
        let c = s[0];
        let rest = s.skip(1);
        lemma_unescape_escape_xml(rest);
        assert(seq![c] + rest =~= s);
        lemma_escape_xml_concat(seq![c], rest);
        lemma_escape_xml_char_table(c);
        let e = escape_xml_spec(seq![c]);
        let r = escape_xml_spec(rest);
        let t = e + r;
        assert(escape_xml_spec(s) == t);
        if c == '&' {
            assert(t.take(5) =~= e);
            assert(t.skip(5) =~= r);
        } else if c == '"' {
            assert(t.take(6) =~= e);
            assert(t.skip(6) =~= r);
        } else if c == '<' {
            assert(t.take(4) =~= e);
            assert(t.skip(4) =~= r);
        } else if c == '>' {
            assert(t.take(4) =~= e);
            assert(t.skip(4) =~= r);
        } else {
            assert(t[0] == c);
            assert(t.len() >= 5 ==> t.take(5)[0] == c);
            assert(t.len() >= 6 ==> t.take(6)[0] == c);
            assert(t.len() >= 4 ==> t.take(4)[0] == c);
            assert(t.skip(1) =~= r);
        }
        assert(unescape_xml_spec(t) =~= s);
    }
}

/// The project file of the bridge up to the path of the SDK project.
pub const BRIDGE_CSPROJ_HEAD: &'static str = "<Project Sdk=\"Microsoft.NET.Sdk\">\n  <PropertyGroup>\n    <TargetFramework>net461</TargetFramework>\n    <AssemblyName>DanmujiRustBridge</AssemblyName>\n    <RootNamespace>DanmujiSdkRust.Bridge</RootNamespace>\n    <LangVersion>7.3</LangVersion>\n  </PropertyGroup>\n\n  <ItemGroup>\n    <ProjectReference Include=\"";

/// The project file of the bridge after the path of the SDK project.
pub const BRIDGE_CSPROJ_TAIL: &'static str = "\" Private=\"false\" />\n    <Reference Include=\"WindowsBase\" />\n  </ItemGroup>\n\n  <ItemGroup>\n    <PackageReference Include=\"Microsoft.NETFramework.ReferenceAssemblies.net461\" Version=\"1.0.3\" PrivateAssets=\"all\" />\n    <PackageReference Include=\"Newtonsoft.Json\" Version=\"13.0.1\" />\n  </ItemGroup>\n</Project>\n";

/// The MSBuild project of the bridge, referring to the SDK project at
/// `sdk_project` (escaped for the attribute it stands in).
pub fn bridge_csproj(sdk_project: &str) -> (res: String)
    ensures
        res@ == BRIDGE_CSPROJ_HEAD@ + escape_xml_spec(sdk_project@) + BRIDGE_CSPROJ_TAIL@,
{
    let mut out = String::from_str(BRIDGE_CSPROJ_HEAD);
    let path = escape_xml_attr(sdk_project);
    out.append(path.as_str());
    out.append(BRIDGE_CSPROJ_TAIL);
    out
}

/// The SDK source files, relative to the SDK source directory, in the
/// order in which `sdk_csproj` lists them.
pub const SDK_SOURCE_FILES: [&'static str; 6] = [
    "DMPlugin.cs",
    "DanmakuModel.cs",
    "Events.cs",
    "GiftRank.cs",
    "Properties/Annotations.cs",
    "Properties/AssemblyInfo.cs",
];

/// The SDK project file before the first source path.
pub const SDK_CSPROJ_HEAD: &'static str = "<Project Sdk=\"Microsoft.NET.Sdk\">\n  <PropertyGroup>\n    <TargetFramework>net461</TargetFramework>\n    <AssemblyName>BilibiliDM_PluginFramework</AssemblyName>\n    <RootNamespace>BilibiliDM_PluginFramework</RootNamespace>\n    <LangVersion>7.3</LangVersion>\n    <EnableDefaultCompileItems>false</EnableDefaultCompileItems>\n    <GenerateAssemblyInfo>false</GenerateAssemblyInfo>\n    <NoWarn>$(NoWarn);0618</NoWarn>\n  </PropertyGroup>\n\n  <ItemGroup>\n    <Compile Include=\"";

/// The SDK project file between the first and the second source path.
pub const SDK_CSPROJ_AFTER_DM_PLUGIN: &'static str = "\" Link=\"DMPlugin.cs\" />\n    <Compile Include=\"";

/// The SDK project file between the second and the third source path.
pub const SDK_CSPROJ_AFTER_DANMAKU_MODEL: &'static str = "\" Link=\"DanmakuModel.cs\" />\n    <Compile Include=\"";

/// The SDK project file between the third and the fourth source path.
pub const SDK_CSPROJ_AFTER_EVENTS: &'static str = "\" Link=\"Events.cs\" />\n    <Compile Include=\"";

/// The SDK project file between the fourth and the fifth source path.
pub const SDK_CSPROJ_AFTER_GIFT_RANK: &'static str = "\" Link=\"GiftRank.cs\" />\n    <Compile Include=\"";

/// The SDK project file between the fifth and the sixth source path.
pub const SDK_CSPROJ_AFTER_ANNOTATIONS: &'static str = "\" Link=\"Properties\\Annotations.cs\" />\n    <Compile Include=\"";

/// The SDK project file after the last source path.
pub const SDK_CSPROJ_TAIL: &'static str = "\" Link=\"Properties\\AssemblyInfo.cs\" />\n  </ItemGroup>\n\n  <ItemGroup>\n    <Reference Include=\"Microsoft.CSharp\" />\n    <Reference Include=\"PresentationCore\" />\n    <Reference Include=\"PresentationFramework\" />\n    <Reference Include=\"System.Xaml\" />\n    <Reference Include=\"WindowsBase\" />\n  </ItemGroup>\n\n  <ItemGroup>\n    <PackageReference Include=\"Microsoft.NETFramework.ReferenceAssemblies.net461\" Version=\"1.0.3\" PrivateAssets=\"all\" />\n    <PackageReference Include=\"Newtonsoft.Json\" Version=\"13.0.1\" />\n  </ItemGroup>\n</Project>\n";

/// The MSBuild project that compiles the SDK from its sources; each
/// argument is the full path of the source file of that name (see
/// `SDK_SOURCE_FILES`), escaped where it stands.
pub fn sdk_csproj(
    dm_plugin: &str,
    danmaku_model: &str,
    events: &str,
    gift_rank: &str,
    annotations: &str,
    assembly_info: &str,
) -> (res: String)
    ensures
        res@ == SDK_CSPROJ_HEAD@ + escape_xml_spec(dm_plugin@) + SDK_CSPROJ_AFTER_DM_PLUGIN@
            + escape_xml_spec(danmaku_model@) + SDK_CSPROJ_AFTER_DANMAKU_MODEL@ + escape_xml_spec(
            events@,
        ) + SDK_CSPROJ_AFTER_EVENTS@ + escape_xml_spec(gift_rank@) + SDK_CSPROJ_AFTER_GIFT_RANK@
            + escape_xml_spec(annotations@) + SDK_CSPROJ_AFTER_ANNOTATIONS@ + escape_xml_spec(
            assembly_info@,
        ) + SDK_CSPROJ_TAIL@,
{
    let mut out = String::from_str(SDK_CSPROJ_HEAD);
    out.append(escape_xml_attr(dm_plugin).as_str());
    out.append(SDK_CSPROJ_AFTER_DM_PLUGIN);
    out.append(escape_xml_attr(danmaku_model).as_str());
    out.append(SDK_CSPROJ_AFTER_DANMAKU_MODEL);
    out.append(escape_xml_attr(events).as_str());
    out.append(SDK_CSPROJ_AFTER_EVENTS);
    out.append(escape_xml_attr(gift_rank).as_str());
    out.append(SDK_CSPROJ_AFTER_GIFT_RANK);
    out.append(escape_xml_attr(annotations).as_str());
    out.append(SDK_CSPROJ_AFTER_ANNOTATIONS);
    out.append(escape_xml_attr(assembly_info).as_str());
    out.append(SDK_CSPROJ_TAIL);
    out
}


#[verifier::external_type_specification]
#[verifier::external_body]
pub struct ExPathBuf(std::path::PathBuf);

/// What an upgrade of the version file did.
#[derive(Debug)]
pub struct VersionUpgrade {
    /// The version file.
    pub path: std::path::PathBuf,
    /// The version it held, when it existed.
    pub old_version: Option<String>,
    /// The version it holds now.
    pub new_version: String,
}

/// The version that an existing version file's text holds, if any.
pub open spec fn old_version_of(old_text: Option<&str>) -> Option<Option<Seq<char>>> {
    match old_text {
        None => Some(None),
        Some(t) => match version_in_text(t@) {
            Some(v) => Some(Some(v)),
            None => None,
        },
    }
}

/// Upgrades the version file at `path` to the latest numeric tag of the
/// SDK repository: `old_text` is the file's text when it exists and
/// `listing` the repository's `git ls-remote --tags --refs` output. Gives
/// what was done and the text to write to the file. An existing file that
/// holds no version, or a listing without a numeric tag, is an error, in
/// that order.
pub fn upgrade_version_file(path: std::path::PathBuf, old_text: Option<&str>, listing: &str) -> (res:
    Result<(VersionUpgrade, String), VersionError>)
    ensures
        old_version_of(old_text) is None ==> res matches Err(VersionError::EmptyFile),
        old_version_of(old_text) is Some && latest_tag_spec(listing@) is None ==> res matches Err(
            VersionError::NoNumericTags,
        ),
        old_version_of(old_text) is Some && latest_tag_spec(listing@) is Some ==> (res matches Ok(
            (upgrade, contents),
        ) && upgrade.path == path && Some(text_of(upgrade.old_version)) == old_version_of(old_text)
            && Some(upgrade.new_version@) == latest_tag_spec(listing@) && contents@
            == upgrade.new_version@.push('\n') && version_in_text(contents@) == Some(
            upgrade.new_version@,
        )),
{
    let old_version = match old_text {
        None => None,
        Some(t) => match parse_version_text(t) {
            Some(v) => Some(v),
            None => {
                return Err(VersionError::EmptyFile);
            },
        },
    };
    let new_version = match latest_numeric_tag(listing) {
        Some(v) => v,
        None => {
            return Err(VersionError::NoNumericTags);
        },
    };
    proof {
        lemma_latest_tag_is_plain(listing@);
        lemma_version_file_round_trip(new_version@);
    }
    let contents = version_file_contents(new_version.as_str());
    match contents {
        Ok(c) => Ok((VersionUpgrade { path, old_version, new_version }, c)),
        Err(e) => Err(e),
    }
}

/// How the version file changed in an upgrade.
#[derive(Debug, Clone, Copy, PartialEq, Eq, Structural)]
pub enum UpgradeOutcome {
    /// It already held the latest version.
    AlreadyLatest,
    /// It held an older version.
    Updated,
    /// It did not exist.
    Created,
}

impl VersionUpgrade {
    /// How the version file changed.
    pub fn outcome(&self) -> (res: UpgradeOutcome)
        ensures
            res == match self.old_version {
                Some(old) => if old@ == self.new_version@ {
                    UpgradeOutcome::AlreadyLatest
                } else {
                    UpgradeOutcome::Updated
                },
                None => UpgradeOutcome::Created,
            },
    {
        match &self.old_version {
            Some(old) => if same_text(old.as_str(), self.new_version.as_str()) {
                UpgradeOutcome::AlreadyLatest
            } else {
                UpgradeOutcome::Updated
            },
            None => UpgradeOutcome::Created,
        }
    }
}


/// One step of preparing the SDK checkout.
#[derive(Debug, Clone, Copy, PartialEq, Eq, Structural)]
pub enum CheckoutStep {
    /// Remove the checkout directory and everything in it.
    RemoveDir,
    /// Create the checkout directory.
    CreateDir,
    /// `git init` the checkout directory.
    GitInit,
    /// Add the SDK repository as the remote `origin`.
    AddRemote,
    /// Fetch the SDK version from `origin` and check it out.
    FetchCheckout,
}

/// The steps that prepare the checkout of an SDK version, given whether a
/// refresh was asked for and what the cache already holds: a refresh
/// removes an existing checkout; a directory that is not a git checkout is
/// removed and set up anew.
pub open spec fn checkout_plan_spec(refresh_sdk: bool, dir_exists: bool, git_exists: bool) -> Seq<
    CheckoutStep,
> {
    let removed = refresh_sdk && dir_exists;
    let still_dir = dir_exists && !removed;
    let still_git = git_exists && !removed;
    (if removed {
        seq![CheckoutStep::RemoveDir]
    } else {
        Seq::empty()
    }) + if still_git {
        Seq::empty()
    } else {
        (if still_dir {
            seq![CheckoutStep::RemoveDir]
        } else {
            Seq::empty()
        }) + seq![
            CheckoutStep::CreateDir,
            CheckoutStep::GitInit,
            CheckoutStep::AddRemote,
            CheckoutStep::FetchCheckout,
        ]
    }
}

/// The steps that prepare the checkout of an SDK version (see
/// `checkout_plan_spec`). After them the checked-out revision is read; when
/// that fails, the version is fetched and checked out once more.
pub fn checkout_plan(refresh_sdk: bool, dir_exists: bool, git_exists: bool) -> (res: Vec<
    CheckoutStep,
>)
    ensures
        res@ == checkout_plan_spec(refresh_sdk, dir_exists, git_exists),
{
    let mut steps: Vec<CheckoutStep> = Vec::new();
    let removed = refresh_sdk && dir_exists;
    if removed {
        steps.push(CheckoutStep::RemoveDir);
    }
    let still_dir = dir_exists && !removed;
    let still_git = git_exists && !removed;
    if !still_git {
        if still_dir {
            steps.push(CheckoutStep::RemoveDir);
        }
        steps.push(CheckoutStep::CreateDir);
        steps.push(CheckoutStep::GitInit);
        steps.push(CheckoutStep::AddRemote);
        steps.push(CheckoutStep::FetchCheckout);
    }
    assert(steps@ =~= checkout_plan_spec(refresh_sdk, dir_exists, git_exists));
    steps
}

/// A prepared checkout is a git checkout of the version: whatever the cache
/// held, the plan either keeps an existing git checkout untouched or ends by
/// fetching the version into a fresh one, and a refresh never keeps the old
/// checkout.
pub proof fn lemma_checkout_plan_ends_fetched(refresh_sdk: bool, dir_exists: bool, git_exists: bool)
    ensures
        ({
            let plan = checkout_plan_spec(refresh_sdk, dir_exists, git_exists);
            &&& plan.len() == 0 <==> (git_exists && !(refresh_sdk && dir_exists))
            &&& plan.len() > 0 ==> plan.last() == CheckoutStep::FetchCheckout
            &&& refresh_sdk && dir_exists ==> plan[0] == CheckoutStep::RemoveDir
        }),
{
}

/// Where the SDK version to build against comes from.
#[derive(Debug)]
pub enum SdkVersionSource {
    /// Given on the command line (trimmed).
    Explicit(String),
    /// Read from the project's version file.
    VersionFile,
    /// The latest tag of the SDK repository, then written to a new version
    /// file in the project.
    Latest,
}

/// Where the SDK version comes from: the `--sdk-version` option when it is
/// given (an error when it is empty once trimmed), else the version file
/// when one is found, else the latest tag.
pub fn sdk_version_source(explicit: Option<&str>, version_file_found: bool) -> (res: Result<
    SdkVersionSource,
    VersionError,
>)
    ensures
        match explicit {
            Some(v) => match res {
                Ok(s) => trim_spec(v@).len() > 0 && (s matches SdkVersionSource::Explicit(t) && t@
                    == trim_spec(v@)),
                Err(e) => trim_spec(v@).len() == 0 && (e matches VersionError::Empty { source: n }
                    && n@ == "--sdk-version"@),
            },
            None => if version_file_found {
                res matches Ok(SdkVersionSource::VersionFile)
            } else {
                res matches Ok(SdkVersionSource::Latest)
            },
        },
{
    match explicit {
        Some(v) => match crate::version::non_empty_version(v, "--sdk-version") {
            Ok(t) => Ok(SdkVersionSource::Explicit(t)),
            Err(e) => Err(e),
        },
        None => if version_file_found {
            Ok(SdkVersionSource::VersionFile)
        } else {
            Ok(SdkVersionSource::Latest)
        },
    }
}

/// The path of the built bridge below the cache root, for a bridge cache
/// key.
pub fn bridge_output_components(key: &str) -> (res: Vec<String>)
    ensures
        res@.map_values(|c: String| c@) == seq![
            "bridge"@,
            key@,
            "project"@,
            "bin"@,
            "Release"@,
            "net461"@,
            BRIDGE_DLL@,
        ],
{
    let mut out: Vec<String> = Vec::new();
    out.push(String::from_str("bridge"));
    out.push(String::from_str(key));
    out.push(String::from_str("project"));
    out.push(String::from_str("bin"));
    out.push(String::from_str("Release"));
    out.push(String::from_str("net461"));
    out.push(String::from_str(BRIDGE_DLL));
    assert(out@.map_values(|c: String| c@) =~= seq![
        "bridge"@,
        key@,
        "project"@,
        "bin"@,
        "Release"@,
        "net461"@,
        BRIDGE_DLL@,
    ]);
    out
}

} // verus!

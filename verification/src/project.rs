//! The decisions of the `cargo danmuji` tool: names and files of a new
//! plugin project, which package a build packages, the arguments of the
//! `cargo build` it runs, and where the results go.

use vstd::prelude::*;
use crate::text::{chars_of, same_text, string_of};
use crate::paths::is_plain_absolute;

verus! {

/// `s` with every `from` replaced by `to`.
pub open spec fn replace_char_spec(s: Seq<char>, from: char, to: char) -> Seq<char> {
    s.map_values(|c: char| if c == from { to } else { c })
}

/// `s` with every `from` replaced by `to`, as `str::replace` with two
/// `char` patterns does.
pub fn replace_char(s: &str, from: char, to: char) -> (res: String)
    ensures
        res@ == replace_char_spec(s@, from, to),
{
    let chars = chars_of(s);
    let mut out: Vec<char> = Vec::new();
    let n = chars.len();
    for i in 0..n
        invariant
            n == chars@.len(),
            chars@ == s@,
            out@ == replace_char_spec(s@.take(i as int), from, to),
    {
        let c = chars[i];
        out.push(if c == from { to } else { c });
        assert(replace_char_spec(s@.take(i + 1), from, to) =~= replace_char_spec(
            s@.take(i as int),
            from,
            to,
        ).push(if c == from { to } else { c }));
    }
    assert(s@.take(n as int) =~= s@);
    string_of(&out)
}

/// What `char::to_uppercase` yields for `c`.
pub uninterp spec fn uppercase_spec(c: char) -> Seq<char>;

/// The ASCII upper-case form of an ASCII character.
pub open spec fn ascii_upper(c: char) -> char {
    if 'a' <= c && c <= 'z' {
        ((c as u32) - 32) as char
    } else {
        c
    }
}

/// The upper-case form of a character, which may be several characters.
///
/// Calls `char::to_uppercase` and collects what its iterator yields. The
/// contract names that sequence `uppercase_spec` of the character, and says
/// what the documentation gives: the mapping is one or more characters; a
/// lower-case ASCII letter yields its upper-case letter, and any other ASCII
/// character, having no upper-case mapping, yields itself.
#[verifier::external_body]
fn to_uppercase(c: char) -> (res: Vec<char>)
    ensures
        res@ == uppercase_spec(c),
        res@.len() >= 1,
        (c as u32) < 128 ==> res@ == seq![ascii_upper(c)],
{
    c.to_uppercase().collect()
}

/// A character that separates words in a project name.
pub open spec fn is_word_separator(c: char) -> bool {
    c == '-' || c == '_' || c == ' '
}

/// The Pascal-case form of `name` so far, and whether the next letter
/// starts a word.
pub open spec fn pascal_scan(name: Seq<char>) -> (Seq<char>, bool)
    decreases name.len(),
{
    if name.len() == 0 {
        (Seq::empty(), true)
    } else {
        let (out, upper_next) = pascal_scan(name.drop_last());
        let c = name.last();
        if is_word_separator(c) {
            (out, true)
        } else if upper_next {
            (out + uppercase_spec(c), false)
        } else {
            (out.push(c), false)
        }
    }
}

/// Whether every character of `s` is ASCII.
pub open spec fn is_ascii_text(s: Seq<char>) -> bool {
    forall|i: int| 0 <= i < s.len() ==> (#[trigger] s[i] as u32) < 128
}

/// `pascal_scan` for an ASCII name, where upper-casing a letter is the ASCII
/// mapping.
pub open spec fn ascii_pascal_scan(name: Seq<char>) -> (Seq<char>, bool)
    decreases name.len(),
{
    if name.len() == 0 {
        (Seq::empty(), true)
    } else {
        let (out, upper_next) = ascii_pascal_scan(name.drop_last());
        let c = name.last();
        if is_word_separator(c) {
            (out, true)
        } else if upper_next {
            (out.push(ascii_upper(c)), false)
        } else {
            (out.push(c), false)
        }
    }
}

/// The default type name when a project name has no letters.
pub open spec fn plugin_default_name() -> Seq<char> {
    seq!['P', 'l', 'u', 'g', 'i', 'n']
}

/// `name` in Pascal case: separators (`-`, `_`, space) dropped and the
/// first character of each word upper-cased; `Plugin` when nothing is left.
pub open spec fn pascal_case_spec(name: Seq<char>) -> Seq<char> {
    if pascal_scan(name).0.len() == 0 {
        plugin_default_name()
    } else {
        pascal_scan(name).0
    }
}

/// The Pascal-case form of an ASCII name, upper-casing by the ASCII mapping.
pub open spec fn ascii_pascal_case_spec(name: Seq<char>) -> Seq<char> {
    if ascii_pascal_scan(name).0.len() == 0 {
        plugin_default_name()
    } else {
        ascii_pascal_scan(name).0
    }
}

/// A run of characters with no word separator.
pub open spec fn is_word(w: Seq<char>) -> bool {
    forall|i: int| 0 <= i < w.len() ==> !is_word_separator(#[trigger] w[i])
}

/// Whether the next letter after `prefix` starts a word: `prefix` is empty
/// or ends in a separator.
pub open spec fn at_word_start(prefix: Seq<char>) -> bool {
    prefix.len() == 0 || is_word_separator(prefix.last())
}

/// Separators are dropped: a separator adds nothing to the Pascal-case form
/// and makes the next letter start a word.
pub proof fn lemma_pascal_scan_separator(prefix: Seq<char>, c: char)
    requires
        is_word_separator(c),
    ensures
        pascal_scan(prefix.push(c)).0 == pascal_scan(prefix).0,
        pascal_scan(prefix.push(c)).1,
        ascii_pascal_scan(prefix.push(c)).0 == ascii_pascal_scan(prefix).0,
        ascii_pascal_scan(prefix.push(c)).1,
{
    assert(prefix.push(c).drop_last() =~= prefix);
}

/// A word that follows the start of the name or a separator adds its first
/// character upper-cased and the rest of it unchanged, in order; the letter
/// after it does not start a word.
pub proof fn lemma_pascal_scan_word(prefix: Seq<char>, word: Seq<char>)
    requires
        at_word_start(prefix),
        word.len() > 0,
        is_word(word),
    ensures
        pascal_scan(prefix + word).0 == pascal_scan(prefix).0 + uppercase_spec(word[0]) + word.skip(1),
        !pascal_scan(prefix + word).1,
        ascii_pascal_scan(prefix + word).0 == ascii_pascal_scan(prefix).0.push(ascii_upper(word[0]))
            + word.skip(1),
        !ascii_pascal_scan(prefix + word).1,
    decreases word.len(),
{
    assert(pascal_scan(prefix).1 && ascii_pascal_scan(prefix).1) by {
        if prefix.len() > 0 {
            lemma_pascal_scan_separator(prefix.drop_last(), prefix.last());
            assert(prefix.drop_last().push(prefix.last()) =~= prefix);
        }
    }
    assert((prefix + word).drop_last() =~= prefix + word.drop_last());
    assert((prefix + word).last() == word.last());
    assert(!is_word_separator(word[word.len() - 1]));
    if word.len() == 1 {
        assert(prefix + word.drop_last() =~= prefix);
        assert(word.skip(1) =~= Seq::<char>::empty());
        assert(pascal_scan(prefix).0 + uppercase_spec(word[0]) + word.skip(1) =~= pascal_scan(
            prefix,
        ).0 + uppercase_spec(word[0]));
        assert(ascii_pascal_scan(prefix).0.push(ascii_upper(word[0])) + word.skip(1)
            =~= ascii_pascal_scan(prefix).0.push(ascii_upper(word[0])));
    } else {
        let w = word.drop_last();
        assert forall|i: int| 0 <= i < w.len() implies !is_word_separator(#[trigger] w[i]) by {
            assert(w[i] == word[i]);
        }
        lemma_pascal_scan_word(prefix, w);
        assert(w[0] == word[0]);
        assert(w.skip(1).push(word.last()) =~= word.skip(1));
        assert(pascal_scan(prefix).0 + uppercase_spec(word[0]) + w.skip(1).push(word.last())
            =~= (pascal_scan(prefix).0 + uppercase_spec(word[0]) + w.skip(1)).push(word.last()));
        assert(ascii_pascal_scan(prefix).0.push(ascii_upper(word[0])) + w.skip(1).push(word.last())
            =~= (ascii_pascal_scan(prefix).0.push(ascii_upper(word[0])) + w.skip(1)).push(
            word.last(),
        ));
    }
}

/// A name of one word keeps every character after the first unchanged: its
/// Pascal-case form is its first character upper-cased, then the rest of
/// it (`DanmakuBot` stays `DanmakuBot`, `bot` becomes `Bot`).
pub proof fn lemma_pascal_case_single_word(name: Seq<char>)
    requires
        name.len() > 1,
        is_word(name),
    ensures
        pascal_case_spec(name) == uppercase_spec(name[0]) + name.skip(1),
        ascii_pascal_case_spec(name) == seq![ascii_upper(name[0])] + name.skip(1),
{
    lemma_pascal_scan_word(Seq::empty(), name);
    assert(Seq::<char>::empty() + name =~= name);
    assert(pascal_scan(Seq::<char>::empty()).0 =~= Seq::<char>::empty());
    assert(pascal_scan(name).0 =~= uppercase_spec(name[0]) + name.skip(1));
    assert(ascii_pascal_scan(name).0 =~= seq![ascii_upper(name[0])] + name.skip(1));
}

/// The type name of a new plugin is never empty.
pub proof fn lemma_pascal_case_nonempty(name: Seq<char>)
    ensures
        pascal_case_spec(name).len() > 0,
{
}

/// `name` in Pascal case, for the type name of a new plugin.
pub fn to_pascal_case(name: &str) -> (res: String)
    ensures
        res@ == pascal_case_spec(name@),
        is_ascii_text(name@) ==> res@ == ascii_pascal_case_spec(name@),
{
    let chars = chars_of(name);
    let mut output: Vec<char> = Vec::new();
    let mut upper_next = true;
    let n = chars.len();
    for i in 0..n
        invariant
            n == chars@.len(),
            chars@ == name@,
            (output@, upper_next) == pascal_scan(name@.take(i as int)),
            is_ascii_text(name@) ==> pascal_scan(name@.take(i as int)) == ascii_pascal_scan(
                name@.take(i as int),
            ),
    {
        let ch = chars[i];
        let ghost t = name@.take(i + 1);
        assert(t.drop_last() =~= name@.take(i as int));
        assert(t.last() == ch);
        assert(is_ascii_text(name@) ==> (ch as u32) < 128) by {
            if is_ascii_text(name@) {
                assert(name@[i as int] == ch);
            }
        }
        if ch == '-' || ch == '_' || ch == ' ' {
            upper_next = true;
        } else if upper_next {
            let up = to_uppercase(ch);
            let ghost before = output@;
            let m = up.len();
            for k in 0..m
                invariant
                    m == up@.len(),
                    output@ == before + up@.take(k as int),
            {
                output.push(up[k]);
                assert(up@.take(k + 1) =~= up@.take(k as int).push(up@[k as int]));
            }
            assert(up@.take(m as int) =~= up@);
            upper_next = false;
        } else {
            output.push(ch);
        }
    }
    assert(name@.take(n as int) =~= name@);
    if output.len() == 0 {
        let d = vec!['P', 'l', 'u', 'g', 'i', 'n'];
        assert(d@ =~= plugin_default_name());
        string_of(&d)
    } else {
        string_of(&output)
    }
}


/// The names of a new plugin project.
pub struct ProjectNames {
    /// The package name: the given name with `_` spelt `-`.
    pub crate_name: String,
    /// The library name: the package name with `-` spelt `_`.
    pub lib_name: String,
    /// The plugin type: the package name in Pascal case.
    pub struct_name: String,
}

/// The names of a new plugin project called `name`.
pub fn project_names(name: &str) -> (res: ProjectNames)
    ensures
        res.crate_name@ == replace_char_spec(name@, '_', '-'),
        res.lib_name@ == replace_char_spec(res.crate_name@, '-', '_'),
        res.struct_name@ == pascal_case_spec(res.crate_name@),
{
    let crate_name = replace_char(name, '_', '-');
    let lib_name = replace_char(crate_name.as_str(), '-', '_');
    let struct_name = to_pascal_case(crate_name.as_str());
    ProjectNames { crate_name, lib_name, struct_name }
}

/// The package name has no `_` and the library name no `-`.
pub proof fn lemma_project_names_separators(name: Seq<char>)
    ensures
        !replace_char_spec(name, '_', '-').contains('_'),
        !replace_char_spec(replace_char_spec(name, '_', '-'), '-', '_').contains('-'),
{
    let c = replace_char_spec(name, '_', '-');
    let l = replace_char_spec(c, '-', '_');
    assert forall|i: int| 0 <= i < c.len() implies c[i] != '_' by {}
    assert forall|i: int| 0 <= i < l.len() implies l[i] != '-' by {}
}

/// The dependency line on a published SDK.
pub const SDK_DEPENDENCY_PUBLISHED: &'static str = "danmuji-sdk = \"0.1\"";

/// The dependency line on a local SDK, before its path.
pub const SDK_DEPENDENCY_PATH_HEAD: &'static str = "danmuji-sdk = { path = \"";

/// The dependency line on a local SDK, after its path.
pub const SDK_DEPENDENCY_PATH_TAIL: &'static str = "\" }";

/// The dependency on the SDK that a new project declares: on the local
/// checkout at `sdk_path` (with `\` spelt `/`) when one is given, else on
/// the published SDK.
pub fn sdk_dependency(sdk_path: Option<&str>) -> (res: String)
    ensures
        res@ == match sdk_path {
            Some(p) => SDK_DEPENDENCY_PATH_HEAD@ + replace_char_spec(p@, '\\', '/')
                + SDK_DEPENDENCY_PATH_TAIL@,
            None => SDK_DEPENDENCY_PUBLISHED@,
        },
{
    match sdk_path {
        Some(p) => {
            let mut out = String::from_str(SDK_DEPENDENCY_PATH_HEAD);
            out.append(replace_char(p, '\\', '/').as_str());
            out.append(SDK_DEPENDENCY_PATH_TAIL);
            out
        },
        None => String::from_str(SDK_DEPENDENCY_PUBLISHED),
    }
}

/// The manifest of a new project before the package name.
pub const CARGO_TOML_HEAD: &'static str = "[package]\nname = \"";

/// The manifest between the package name and the library name.
pub const CARGO_TOML_AFTER_CRATE: &'static str = "\"\nversion = \"0.1.0\"\nedition = \"2021\"\n\n[lib]\nname = \"";

/// The manifest between the library name and the dependency.
pub const CARGO_TOML_AFTER_LIB: &'static str = "\"\ncrate-type = [\"cdylib\"]\n\n[dependencies]\n";

/// The manifest after the dependency.
pub const CARGO_TOML_TAIL: &'static str = "\n";

/// The `Cargo.toml` of a new plugin project.
pub fn cargo_toml_text(crate_name: &str, lib_name: &str, dependency: &str) -> (res: String)
    ensures
        res@ == CARGO_TOML_HEAD@ + crate_name@ + CARGO_TOML_AFTER_CRATE@ + lib_name@
            + CARGO_TOML_AFTER_LIB@ + dependency@ + CARGO_TOML_TAIL@,
{
    let mut out = String::from_str(CARGO_TOML_HEAD);
    out.append(crate_name);
    out.append(CARGO_TOML_AFTER_CRATE);
    out.append(lib_name);
    out.append(CARGO_TOML_AFTER_LIB);
    out.append(dependency);
    out.append(CARGO_TOML_TAIL);
    out
}

/// The source of a new plugin before the type name.
pub const LIB_RS_HEAD: &'static str = "use danmuji_sdk::{Danmaku, DanmujiPlugin, Host, MsgType, PluginContext, PluginMetadata};\n\n#[derive(Default)]\nstruct ";

/// The source between the type declaration and the impl's type name.
pub const LIB_RS_AFTER_STRUCT: &'static str = ";\n\nimpl DanmujiPlugin for ";

/// The source between the impl's type name and the plugin name.
pub const LIB_RS_AFTER_IMPL: &'static str = " {\n    fn metadata(&self) -> PluginMetadata {\n        PluginMetadata {\n            name: \"";

/// The source between the plugin name and the name in the start message.
pub const LIB_RS_AFTER_NAME: &'static str = "\",\n            author: \"\",\n            contact: \"\",\n            version: \"v0.1.0\",\n            description: \"Rust plugin for B\u{7ad9}\u{5f39}\u{5e55}\u{59ec}\",\n        }\n    }\n\n    fn start(&mut self, host: Host, _ctx: PluginContext) {\n        host.log(\"";

/// The source between the start message and the exported type name.
pub const LIB_RS_AFTER_START: &'static str = " started\");\n    }\n\n    fn danmaku(&mut self, host: Host, danmaku: Danmaku) {\n        if danmaku.msg_type == MsgType::Comment {\n            let user = danmaku.user_name.as_deref().unwrap_or(\"unknown\");\n            let text = danmaku.comment_text.as_deref().unwrap_or(\"\");\n            host.log(format!(\"{user}: {text}\"));\n        }\n    }\n}\n\ndanmuji_sdk::export_plugin!(";

/// The source after the exported type name.
pub const LIB_RS_TAIL: &'static str = "::default());\n";

/// The `src/lib.rs` of a new plugin project: a plugin type that logs its
/// start and every comment, exported to the bridge.
pub fn lib_rs_text(crate_name: &str, struct_name: &str) -> (res: String)
    ensures
        res@ == LIB_RS_HEAD@ + struct_name@ + LIB_RS_AFTER_STRUCT@ + struct_name@
            + LIB_RS_AFTER_IMPL@ + crate_name@ + LIB_RS_AFTER_NAME@ + crate_name@
            + LIB_RS_AFTER_START@ + struct_name@ + LIB_RS_TAIL@,
{
    let mut out = String::from_str(LIB_RS_HEAD);
    out.append(struct_name);
    out.append(LIB_RS_AFTER_STRUCT);
    out.append(struct_name);
    out.append(LIB_RS_AFTER_IMPL);
    out.append(crate_name);
    out.append(LIB_RS_AFTER_NAME);
    out.append(crate_name);
    out.append(LIB_RS_AFTER_START);
    out.append(struct_name);
    out.append(LIB_RS_TAIL);
    out
}


/// Why `cargo danmuji build` refuses a package selection.
#[derive(Debug, Clone, Copy, PartialEq, Eq, Structural)]
pub enum SelectionError {
    /// `--workspace`, `--all` or `--exclude` was given: a build packages one
    /// plugin.
    WholeWorkspace,
    /// More than one `--package` was given.
    SeveralPackages,
}

/// The message for a whole-workspace build.
pub const WHOLE_WORKSPACE_MESSAGE: &'static str = "cargo danmuji build packages one plugin DLL; use --package to select one package";

/// The message for a build given several packages.
pub const SEVERAL_PACKAGES_MESSAGE: &'static str = "cargo danmuji build packages one plugin DLL; pass only one --package";

impl SelectionError {
    /// What the tool says when it refuses the selection.
    pub fn message(&self) -> (res: String)
        ensures
            res@ == match *self {
                SelectionError::WholeWorkspace => WHOLE_WORKSPACE_MESSAGE@,
                SelectionError::SeveralPackages => SEVERAL_PACKAGES_MESSAGE@,
            },
    {
        match self {
            SelectionError::WholeWorkspace => String::from_str(WHOLE_WORKSPACE_MESSAGE),
            SelectionError::SeveralPackages => String::from_str(SEVERAL_PACKAGES_MESSAGE),
        }
    }
}

/// Checks the package selection of a build: one plugin at most.
pub fn check_build_selection(
    workspace: bool,
    all: bool,
    exclude_count: usize,
    package_count: usize,
) -> (res: Result<(), SelectionError>)
    ensures
        (workspace || all || exclude_count > 0) ==> res == Err::<(), SelectionError>(
            SelectionError::WholeWorkspace,
        ),
        !(workspace || all || exclude_count > 0) && package_count > 1 ==> res == Err::<
            (),
            SelectionError,
        >(SelectionError::SeveralPackages),
        !(workspace || all || exclude_count > 0) && package_count <= 1 ==> res is Ok,
{
    if workspace || all || exclude_count > 0 {
        return Err(SelectionError::WholeWorkspace);
    }
    if package_count > 1 {
        return Err(SelectionError::SeveralPackages);
    }
    Ok(())
}

/// One argument of the `cargo build` command line; the two paths stand as
/// places, filled in by whoever runs the command.
#[derive(Debug)]
pub enum CargoArg {
    Text(String),
    ManifestPath,
    TargetDir,
}

/// What an argument says.
pub enum CargoArgView {
    Text(Seq<char>),
    ManifestPath,
    TargetDir,
}

/// What an argument says.
pub open spec fn arg_view(a: CargoArg) -> CargoArgView {
    match a {
        CargoArg::Text(s) => CargoArgView::Text(s@),
        CargoArg::ManifestPath => CargoArgView::ManifestPath,
        CargoArg::TargetDir => CargoArgView::TargetDir,
    }
}

/// What a build asks of `cargo build` beyond the manifest and target
/// directory.
#[derive(Debug)]
pub struct BuildRequest {
    /// The package to build, when one was named.
    pub package: Option<String>,
    pub all_features: bool,
    pub no_default_features: bool,
    pub features: Vec<String>,
    pub release: bool,
    /// The target triple, when one was given.
    pub target: Option<String>,
    /// Arguments passed through to cargo unchanged.
    pub cargo_args: Vec<String>,
}

/// A text argument.
pub open spec fn text_arg(s: Seq<char>) -> Seq<CargoArgView> {
    seq![CargoArgView::Text(s)]
}

/// `--features <f>` for each feature, in order.
pub open spec fn feature_args(features: Seq<String>) -> Seq<CargoArgView>
    decreases features.len(),
{
    if features.len() == 0 {
        Seq::empty()
    } else {
        feature_args(features.drop_last()) + text_arg("--features"@) + text_arg(
            features.last()@,
        )
    }
}

/// The arguments passed through, in order.
pub open spec fn pass_through_args(args: Seq<String>) -> Seq<CargoArgView>
    decreases args.len(),
{
    if args.len() == 0 {
        Seq::empty()
    } else {
        pass_through_args(args.drop_last()) + text_arg(args.last()@)
    }
}

/// The fixed start of the command line.
pub open spec fn head_args() -> Seq<CargoArgView> {
    text_arg("build"@) + text_arg("--manifest-path"@) + seq![CargoArgView::ManifestPath]
        + text_arg("--target-dir"@) + seq![CargoArgView::TargetDir]
}

/// An option followed by its value, when there is a value.
pub open spec fn option_args(flag: Seq<char>, value: Option<String>) -> Seq<CargoArgView> {
    match value {
        Some(v) => text_arg(flag) + text_arg(v@),
        None => Seq::empty(),
    }
}

/// A flag, when it is set.
pub open spec fn flag_args(set: bool, flag: Seq<char>) -> Seq<CargoArgView> {
    if set {
        text_arg(flag)
    } else {
        Seq::empty()
    }
}

/// The `cargo build` command line of a plugin build.
pub open spec fn cargo_build_args_spec(req: BuildRequest) -> Seq<CargoArgView> {
    head_args() + option_args("--package"@, req.package) + flag_args(
        req.all_features,
        "--all-features"@,
    ) + flag_args(req.no_default_features, "--no-default-features"@) + feature_args(
        req.features@,
    ) + flag_args(req.release, "--release"@) + option_args("--target"@, req.target)
        + pass_through_args(req.cargo_args@)
}

/// The pass-through arguments are the given texts, one argument each, in
/// order.
pub proof fn lemma_pass_through_args_exact(args: Seq<String>)
    ensures
        pass_through_args(args).len() == args.len(),
        forall|i: int|
            0 <= i < args.len() ==> #[trigger] pass_through_args(args)[i] == CargoArgView::Text(
                args[i]@,
            ),
    decreases args.len(),
{
    if args.len() > 0 {
        lemma_pass_through_args_exact(args.drop_last());
    }
}

/// Each feature is passed as `--features` followed by its name, in order.
pub proof fn lemma_feature_args_exact(features: Seq<String>)
    ensures
        feature_args(features).len() == 2 * features.len(),
        forall|i: int|
            0 <= i < features.len() ==> #[trigger] feature_args(features)[2 * i]
                == CargoArgView::Text("--features"@) && feature_args(features)[2 * i + 1]
                == CargoArgView::Text(features[i]@),
    decreases features.len(),
{
    if features.len() > 0 {
        lemma_feature_args_exact(features.drop_last());
    }
}

/// The number of arguments that the options of a request add.
pub open spec fn option_count(req: BuildRequest) -> int {
    (if req.package is Some { 2int } else { 0int }) + (if req.all_features { 1int } else { 0int })
        + (if req.no_default_features { 1int } else { 0int }) + 2 * req.features@.len() + (
    if req.release { 1int } else { 0int }) + (if req.target is Some { 2int } else { 0int })
}

/// The command line starts with `build --manifest-path <manifest>
/// --target-dir <target dir>` and ends with every pass-through argument,
/// unchanged and in order; between them stand the options, one argument for
/// each flag and two for each option with a value and each feature.
#[verifier::spinoff_prover]
pub proof fn lemma_cargo_build_args_shape(req: BuildRequest)
    ensures
        cargo_build_args_spec(req).len() == 5 + option_count(req) + req.cargo_args@.len(),
        cargo_build_args_spec(req)[0] == CargoArgView::Text("build"@),
        cargo_build_args_spec(req)[1] == CargoArgView::Text("--manifest-path"@),
        cargo_build_args_spec(req)[2] == CargoArgView::ManifestPath,
        cargo_build_args_spec(req)[3] == CargoArgView::Text("--target-dir"@),
        cargo_build_args_spec(req)[4] == CargoArgView::TargetDir,
        forall|i: int|
            0 <= i < req.cargo_args@.len() ==> #[trigger] cargo_build_args_spec(req)[5
                + option_count(req) + i] == CargoArgView::Text(req.cargo_args@[i]@),
{
    lemma_pass_through_args_exact(req.cargo_args@);
    lemma_feature_args_exact(req.features@);
    let opts = option_args("--package"@, req.package) + flag_args(
        req.all_features,
        "--all-features"@,
    ) + flag_args(req.no_default_features, "--no-default-features"@) + feature_args(
        req.features@,
    ) + flag_args(req.release, "--release"@) + option_args("--target"@, req.target);
    let h = head_args();
    let t = pass_through_args(req.cargo_args@);
    assert(opts.len() == option_count(req));
    assert(h =~= seq![
        CargoArgView::Text("build"@),
        CargoArgView::Text("--manifest-path"@),
        CargoArgView::ManifestPath,
        CargoArgView::Text("--target-dir"@),
        CargoArgView::TargetDir,
    ]);
    let all = h + opts + t;
    assert(cargo_build_args_spec(req) =~= all);
    assert forall|i: int| 0 <= i < req.cargo_args@.len() implies #[trigger] all[5 + option_count(req)
        + i] == CargoArgView::Text(req.cargo_args@[i]@) by {
        assert(all[5 + option_count(req) + i] == t[i]);
    }
}

/// The views of a list of arguments.
pub open spec fn arg_views(args: Seq<CargoArg>) -> Seq<CargoArgView> {
    args.map_values(|a: CargoArg| arg_view(a))
}

fn push_text(args: &mut Vec<CargoArg>, s: &str)
    ensures
        arg_views(final(args)@) == arg_views(old(args)@) + text_arg(s@),
{
    let ghost before = args@;
    args.push(CargoArg::Text(String::from_str(s)));
    assert(arg_views(args@) =~= arg_views(before) + text_arg(s@));
}

fn push_head(args: &mut Vec<CargoArg>)
    ensures
        arg_views(final(args)@) == arg_views(old(args)@) + head_args(),
{
    let ghost start = arg_views(args@);
    push_text(args, "build");
    push_text(args, "--manifest-path");
    let ghost b = args@;
    args.push(CargoArg::ManifestPath);
    assert(arg_views(args@) =~= arg_views(b) + seq![CargoArgView::ManifestPath]);
    push_text(args, "--target-dir");
    let ghost b = args@;
    args.push(CargoArg::TargetDir);
    assert(arg_views(args@) =~= arg_views(b) + seq![CargoArgView::TargetDir]);
    assert(arg_views(args@) =~= start + head_args());
}

fn push_option(args: &mut Vec<CargoArg>, flag: &str, value: &Option<String>)
    ensures
        arg_views(final(args)@) == arg_views(old(args)@) + option_args(flag@, *value),
{
    let ghost start = arg_views(args@);
    match value {
        Some(v) => {
            push_text(args, flag);
            push_text(args, v.as_str());
            assert(arg_views(args@) =~= start + option_args(flag@, *value));
        },
        None => {
            assert(arg_views(args@) =~= start + option_args(flag@, *value));
        },
    }
}

fn push_flag(args: &mut Vec<CargoArg>, set: bool, flag: &str)
    ensures
        arg_views(final(args)@) == arg_views(old(args)@) + flag_args(set, flag@),
{
    let ghost start = arg_views(args@);
    if set {
        push_text(args, flag);
    }
    assert(arg_views(args@) =~= start + flag_args(set, flag@));
}

fn push_features(args: &mut Vec<CargoArg>, features: &Vec<String>)
    ensures
        arg_views(final(args)@) == arg_views(old(args)@) + feature_args(features@),
{
    let ghost start = arg_views(args@);
    let n = features.len();
    assert(start + feature_args(features@.take(0)) =~= start);
    for i in 0..n
        invariant
            n == features@.len(),
            arg_views(args@) == start + feature_args(features@.take(i as int)),
    {
        push_text(args, "--features");
        push_text(args, features[i].as_str());
        assert(features@.take(i + 1).drop_last() =~= features@.take(i as int));
        assert(arg_views(args@) =~= start + feature_args(features@.take(i + 1)));
    }
    assert(features@.take(n as int) =~= features@);
}

fn push_pass_through(args: &mut Vec<CargoArg>, extra: &Vec<String>)
    ensures
        arg_views(final(args)@) == arg_views(old(args)@) + pass_through_args(extra@),
{
    let ghost start = arg_views(args@);
    let n = extra.len();
    assert(start + pass_through_args(extra@.take(0)) =~= start);
    for i in 0..n
        invariant
            n == extra@.len(),
            arg_views(args@) == start + pass_through_args(extra@.take(i as int)),
    {
        push_text(args, extra[i].as_str());
        assert(extra@.take(i + 1).drop_last() =~= extra@.take(i as int));
        assert(arg_views(args@) =~= start + pass_through_args(extra@.take(i + 1)));
    }
    assert(extra@.take(n as int) =~= extra@);
}

/// The `cargo build` command line of a plugin build: the manifest and
/// target directory, the package when one was named, the feature flags,
/// each feature, the profile and target, then the pass-through arguments.
pub fn cargo_build_args(req: &BuildRequest) -> (res: Vec<CargoArg>)
    ensures
        arg_views(res@) == cargo_build_args_spec(*req),
{
    let mut args: Vec<CargoArg> = Vec::new();
    assert(arg_views(args@) =~= Seq::<CargoArgView>::empty());
    push_head(&mut args);
    assert(arg_views(args@) =~= head_args());
    push_option(&mut args, "--package", &req.package);
    push_flag(&mut args, req.all_features, "--all-features");
    push_flag(&mut args, req.no_default_features, "--no-default-features");
    push_features(&mut args, &req.features);
    push_flag(&mut args, req.release, "--release");
    push_option(&mut args, "--target", &req.target);
    push_pass_through(&mut args, &req.cargo_args);
    args
}


/// The profile directory of a build.
pub fn profile_dir(release: bool) -> (res: &'static str)
    ensures
        res@ == if release { "release"@ } else { "debug"@ },
{
    if release {
        "release"
    } else {
        "debug"
    }
}

/// `name` followed by `.dll`.
pub open spec fn dll_name(name: Seq<char>) -> Seq<char> {
    name + ".dll"@
}

fn with_dll_suffix(name: &str) -> (res: String)
    ensures
        res@ == dll_name(name@),
{
    let mut out = String::from_str(name);
    out.append(".dll");
    out
}

/// The file name of the packaged plugin when no output path is given: the
/// package name with `-` spelt `_`, and `.dll`.
pub fn plugin_file_name(package_name: &str) -> (res: String)
    ensures
        res@ == dll_name(replace_char_spec(package_name@, '-', '_')),
{
    let name = replace_char(package_name, '-', '_');
    with_dll_suffix(name.as_str())
}

/// Where cargo puts the native DLL, below the target directory: the target
/// triple's directory when one was given, the profile directory, and the
/// library's DLL.
pub fn native_dll_components(target: Option<&str>, profile: &str, lib_name: &str) -> (res: Vec<
    String,
>)
    ensures
        res@.map_values(|c: String| c@) == (match target {
            Some(t) => seq![t@],
            None => Seq::empty(),
        }) + seq![profile@, dll_name(lib_name@)],
{
    let mut out: Vec<String> = Vec::new();
    match target {
        Some(t) => out.push(String::from_str(t)),
        None => {},
    }
    out.push(String::from_str(profile));
    out.push(with_dll_suffix(lib_name));
    assert(out@.map_values(|c: String| c@) =~= (match target {
        Some(t) => seq![t@],
        None => Seq::empty(),
    }) + seq![profile@, dll_name(lib_name@)]);
    out
}

/// One target of a package, as the cargo metadata lists it.
#[derive(Debug)]
pub struct TargetInfo {
    pub name: String,
    /// The crate types it builds, such as `lib` or `cdylib`.
    pub crate_types: Vec<String>,
}

/// One package of a workspace, as the cargo metadata lists it.
#[derive(Debug)]
pub struct PackageInfo {
    pub name: String,
    /// The path of its manifest.
    pub manifest_path: String,
    pub targets: Vec<TargetInfo>,
}

/// A target that builds a `cdylib`.
pub open spec fn builds_cdylib(t: TargetInfo) -> bool {
    exists|k: int| 0 <= k < t.crate_types@.len() && #[trigger] t.crate_types@[k]@ == "cdylib"@
}

/// Why no plugin DLL can be named for a build.
#[derive(Debug)]
pub enum PackageError {
    /// No package of the workspace has the given name.
    NotFound { name: String },
    /// No package was named and none could be told from the manifest.
    NameRequired,
    /// The package builds no `cdylib`.
    NoCdylib { package: String },
}

/// The text before a package name in a package error.
pub const PACKAGE_MESSAGE_HEAD: &'static str = "package `";

/// The text after the name of a package that was not found.
pub const NOT_FOUND_MESSAGE_TAIL: &'static str = "` not found in workspace metadata";

/// The message when no package was named and none could be chosen.
pub const NAME_REQUIRED_MESSAGE: &'static str = "package name is required; pass --package";

/// The text after the name of a package that builds no `cdylib`.
pub const NO_CDYLIB_MESSAGE_TAIL: &'static str = "` has no cdylib target; add [lib] crate-type = [\"cdylib\"]";

impl PackageError {
    /// What the tool says when it cannot choose or use a package.
    pub fn message(&self) -> (res: String)
        ensures
            res@ == match *self {
                PackageError::NotFound { name } => PACKAGE_MESSAGE_HEAD@ + name@
                    + NOT_FOUND_MESSAGE_TAIL@,
                PackageError::NameRequired => NAME_REQUIRED_MESSAGE@,
                PackageError::NoCdylib { package } => PACKAGE_MESSAGE_HEAD@ + package@
                    + NO_CDYLIB_MESSAGE_TAIL@,
            },
    {
        match self {
            PackageError::NotFound { name } => {
                let mut out = String::from_str(PACKAGE_MESSAGE_HEAD);
                out.append(name.as_str());
                out.append(NOT_FOUND_MESSAGE_TAIL);
                out
            },
            PackageError::NameRequired => String::from_str(NAME_REQUIRED_MESSAGE),
            PackageError::NoCdylib { package } => {
                let mut out = String::from_str(PACKAGE_MESSAGE_HEAD);
                out.append(package.as_str());
                out.append(NO_CDYLIB_MESSAGE_TAIL);
                out
            },
        }
    }
}

/// The name of the first target of `package` that builds a `cdylib`: the
/// library whose DLL the plugin carries.
pub fn cdylib_target_name(package: &PackageInfo) -> (res: Result<String, PackageError>)
    ensures
        match res {
            Ok(name) => exists|i: int|
                0 <= i < package.targets@.len() && builds_cdylib(#[trigger] package.targets@[i])
                    && (forall|j: int| 0 <= j < i ==> !builds_cdylib(#[trigger] package.targets@[j]))
                    && name@ == package.targets@[i].name@,
            Err(e) => (forall|i: int|
                0 <= i < package.targets@.len() ==> !builds_cdylib(#[trigger] package.targets@[i]))
                && (e matches PackageError::NoCdylib { package: p } && p@ == package.name@),
        },
{
    let n = package.targets.len();
    for i in 0..n
        invariant
            n == package.targets@.len(),
            forall|j: int| 0 <= j < i ==> !builds_cdylib(#[trigger] package.targets@[j]),
    {
        let target = &package.targets[i];
        let m = target.crate_types.len();
        let mut k: usize = 0;
        while k < m
            invariant
                m == target.crate_types@.len(),
                k <= m,
                i < n,
                n == package.targets@.len(),
                *target == package.targets@[i as int],
                forall|j: int| 0 <= j < i ==> !builds_cdylib(#[trigger] package.targets@[j]),
                forall|q: int| 0 <= q < k ==> #[trigger] target.crate_types@[q]@ != "cdylib"@,
            decreases m - k,
        {
            if same_text(target.crate_types[k].as_str(), "cdylib") {
                assert(target.crate_types@[k as int]@ == "cdylib"@);
                assert(builds_cdylib(package.targets@[i as int]));
                return Ok(String::from_str(target.name.as_str()));
            }
            k = k + 1;
        }
        assert(!builds_cdylib(package.targets@[i as int]));
    }
    Err(PackageError::NoCdylib { package: String::from_str(package.name.as_str()) })
}


/// Whether two paths name the same place, as `Path`'s `==` decides.
///
/// Calls `==` on two `std::path::Path`s. `Path` equality compares the
/// parsed components, whose syntax depends on the platform, so the contract
/// names no result in general. It says what holds everywhere: equal texts
/// are equal paths, and two absolute paths of plain components (`/a/b`),
/// which every platform parses into a root and the same named components,
/// are equal exactly when their texts are.
#[verifier::external_body]
fn same_path(a: &str, b: &str) -> (res: bool)
    ensures
        a@ == b@ ==> res,
        is_plain_absolute(a@) && is_plain_absolute(b@) ==> (res <==> a@ == b@),
{
    std::path::Path::new(a) == std::path::Path::new(b)
}

/// The package chosen for a build, given for each package whether its
/// manifest is the one the build was pointed at (`manifest_matches`) and
/// the root package of the workspace (`root`, an index into `packages`):
/// the first package of the given name when a name is given; else the first
/// package whose manifest matches; else the root package.
pub fn select_package_by(
    packages: &Vec<PackageInfo>,
    package_name: Option<&str>,
    manifest_matches: &Vec<bool>,
    root: Option<usize>,
) -> (res: Result<usize, PackageError>)
    requires
        manifest_matches@.len() == packages@.len(),
        root matches Some(r) ==> r < packages@.len(),
    ensures
        match package_name {
            Some(name) => match res {
                Ok(i) => i < packages@.len() && packages@[i as int].name@ == name@ && forall|j: int|
                    0 <= j < i ==> #[trigger] packages@[j].name@ != name@,
                Err(e) => (forall|j: int|
                    0 <= j < packages@.len() ==> #[trigger] packages@[j].name@ != name@) && (e matches PackageError::NotFound {
                    name: n,
                } && n@ == name@),
            },
            None => match res {
                Ok(i) => i < packages@.len() && ((manifest_matches@[i as int] && forall|j: int|
                    0 <= j < i ==> !#[trigger] manifest_matches@[j]) || ((forall|j: int|
                    0 <= j < packages@.len() ==> !#[trigger] manifest_matches@[j]) && root == Some(
                    i,
                ))),
                Err(e) => (forall|j: int|
                    0 <= j < packages@.len() ==> !#[trigger] manifest_matches@[j]) && root is None
                    && e matches PackageError::NameRequired,
            },
        },
{
    let n = packages.len();
    match package_name {
        Some(name) => {
            for i in 0..n
                invariant
                    n == packages@.len(),
                    package_name == Some(name),
                    forall|j: int| 0 <= j < i ==> #[trigger] packages@[j].name@ != name@,
            {
                if same_text(packages[i].name.as_str(), name) {
                    return Ok(i);
                }
            }
            Err(PackageError::NotFound { name: String::from_str(name) })
        },
        None => {
            for i in 0..n
                invariant
                    n == packages@.len(),
                    package_name is None,
                    manifest_matches@.len() == n,
                    forall|j: int| 0 <= j < i ==> !#[trigger] manifest_matches@[j],
            {
                if manifest_matches[i] {
                    return Ok(i);
                }
            }
            match root {
                Some(r) => Ok(r),
                None => Err(PackageError::NameRequired),
            }
        },
    }
}

/// Whether the manifest a build is pointed at and every package's manifest
/// are absolute paths of plain components, whose equality is that of their
/// texts on every platform.
pub open spec fn all_plain_manifests(packages: Seq<PackageInfo>, manifest_path: Seq<char>) -> bool {
    is_plain_absolute(manifest_path) && forall|j: int|
        0 <= j < packages.len() ==> is_plain_absolute(#[trigger] packages[j].manifest_path@)
}

/// The package chosen for a build pointed at the manifest `manifest_path`:
/// by name when one is given, else the package of that manifest (by `Path`
/// equality), else the root package `root`. A package whose manifest path
/// is the same text always counts as that manifest's package, so with no
/// name given the choice is that package or one before it; where all the
/// manifests are absolute paths of plain components the choice is exactly
/// the first package whose manifest text is `manifest_path`, else the root.
pub fn select_package(
    packages: &Vec<PackageInfo>,
    manifest_path: &str,
    package_name: Option<&str>,
    root: Option<usize>,
) -> (res: Result<usize, PackageError>)
    requires
        root matches Some(r) ==> r < packages@.len(),
    ensures
        package_name matches Some(name) ==> match res {
            Ok(i) => i < packages@.len() && packages@[i as int].name@ == name@ && forall|j: int|
                0 <= j < i ==> #[trigger] packages@[j].name@ != name@,
            Err(e) => (forall|j: int|
                0 <= j < packages@.len() ==> #[trigger] packages@[j].name@ != name@) && (e matches PackageError::NotFound {
                name: n,
            } && n@ == name@),
        },
        package_name is None ==> match res {
            Ok(i) => i < packages@.len(),
            Err(e) => root is None && e matches PackageError::NameRequired,
        },
        forall|j: int|
            0 <= j < packages@.len() && package_name is None && #[trigger] packages@[j].manifest_path@
                == manifest_path@ ==> (res matches Ok(i) && i <= j),
        package_name is None && all_plain_manifests(packages@, manifest_path@) ==> match res {
            Ok(i) => i < packages@.len() && ((packages@[i as int].manifest_path@ == manifest_path@
                && forall|j: int|
                0 <= j < i ==> #[trigger] packages@[j].manifest_path@ != manifest_path@) || ((
            forall|j: int|
                0 <= j < packages@.len() ==> #[trigger] packages@[j].manifest_path@
                    != manifest_path@) && root == Some(i))),
            Err(e) => (forall|j: int|
                0 <= j < packages@.len() ==> #[trigger] packages@[j].manifest_path@
                    != manifest_path@) && root is None && e matches PackageError::NameRequired,
        },
{
    let mut matches: Vec<bool> = Vec::new();
    let n = packages.len();
    for i in 0..n
        invariant
            n == packages@.len(),
            matches@.len() == i,
            forall|j: int|
                0 <= j < i ==> (#[trigger] packages@[j].manifest_path@ == manifest_path@
                    ==> matches@[j]),
            forall|j: int|
                0 <= j < i && is_plain_absolute(manifest_path@) && is_plain_absolute(
                    #[trigger] packages@[j].manifest_path@,
                ) ==> (matches@[j] <==> packages@[j].manifest_path@ == manifest_path@),
    {
        matches.push(same_path(packages[i].manifest_path.as_str(), manifest_path));
    }
    let res = select_package_by(packages, package_name, &matches, root);
    assert forall|j: int|
        0 <= j < packages@.len() && package_name is None && #[trigger] packages@[j].manifest_path@
            == manifest_path@ implies (res matches Ok(i) && i <= j) by {
        assert(matches@[j]);
    }
    res
}

} // verus!

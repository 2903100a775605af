use danmuji::project::{
    cargo_build_args, cargo_toml_text, cdylib_target_name, check_build_selection, lib_rs_text,
    native_dll_components, plugin_file_name, profile_dir, project_names, replace_char,
    sdk_dependency, select_package, select_package_by, to_pascal_case, BuildRequest, CargoArg,
    PackageError, PackageInfo, SelectionError, TargetInfo,
};

#[test]
fn pascal_case_names() {
    assert_eq!(to_pascal_case("my-plugin"), "MyPlugin");
    assert_eq!(to_pascal_case("my_cool plugin"), "MyCoolPlugin");
    assert_eq!(to_pascal_case("--a--b--"), "AB");
    assert_eq!(to_pascal_case("already"), "Already");
    assert_eq!(to_pascal_case("x9-1y"), "X91y");
    assert_eq!(to_pascal_case(""), "Plugin");
    assert_eq!(to_pascal_case("-_ "), "Plugin");
    assert_eq!(to_pascal_case("ßtraße"), "SStraße");
}

#[test]
fn project_names_of_a_new_plugin() {
    let names = project_names("my_cool-plugin");
    assert_eq!(names.crate_name, "my-cool-plugin");
    assert_eq!(names.lib_name, "my_cool_plugin");
    assert_eq!(names.struct_name, "MyCoolPlugin");
    assert_eq!(replace_char("a-b-c", '-', '_'), "a_b_c");
}

#[test]
fn sdk_dependencies() {
    assert_eq!(sdk_dependency(None), "danmuji-sdk = \"0.1\"");
    assert_eq!(
        sdk_dependency(Some("C:\\src\\danmuji-sdk")),
        "danmuji-sdk = { path = \"C:/src/danmuji-sdk\" }"
    );
}

#[test]
fn new_project_files() {
    let toml = cargo_toml_text("my-plugin", "my_plugin", "danmuji-sdk = \"0.1\"");
    assert_eq!(
        toml,
        "[package]\nname = \"my-plugin\"\nversion = \"0.1.0\"\nedition = \"2021\"\n\n[lib]\nname = \"my_plugin\"\ncrate-type = [\"cdylib\"]\n\n[dependencies]\ndanmuji-sdk = \"0.1\"\n"
    );
    let lib = lib_rs_text("my-plugin", "MyPlugin");
    assert!(lib.starts_with("use danmuji_sdk::{Danmaku, DanmujiPlugin, Host, MsgType, PluginContext, PluginMetadata};\n\n#[derive(Default)]\nstruct MyPlugin;\n\nimpl DanmujiPlugin for MyPlugin {\n"));
    assert!(lib.contains("            name: \"my-plugin\",\n"));
    assert!(lib.contains("            description: \"Rust plugin for B站弹幕姬\",\n"));
    assert!(lib.contains("        host.log(\"my-plugin started\");\n"));
    assert!(lib.contains("            host.log(format!(\"{user}: {text}\"));\n"));
    assert!(lib.ends_with("danmuji_sdk::export_plugin!(MyPlugin::default());\n"));
}

#[test]
fn build_selection_is_one_package() {
    assert_eq!(check_build_selection(false, false, 0, 0), Ok(()));
    assert_eq!(check_build_selection(false, false, 0, 1), Ok(()));
    assert_eq!(check_build_selection(false, false, 0, 2), Err(SelectionError::SeveralPackages));
    assert_eq!(check_build_selection(true, false, 0, 0), Err(SelectionError::WholeWorkspace));
    assert_eq!(check_build_selection(false, true, 0, 1), Err(SelectionError::WholeWorkspace));
    assert_eq!(check_build_selection(false, false, 1, 3), Err(SelectionError::WholeWorkspace));
}

fn texts(args: &[CargoArg]) -> Vec<String> {
    args.iter()
        .map(|a| match a {
            CargoArg::Text(s) => s.clone(),
            CargoArg::ManifestPath => "<manifest>".to_string(),
            CargoArg::TargetDir => "<target-dir>".to_string(),
        })
        .collect()
}

#[test]
fn cargo_build_command_lines() {
    let minimal = BuildRequest {
        package: None,
        all_features: false,
        no_default_features: false,
        features: vec![],
        release: false,
        target: None,
        cargo_args: vec![],
    };
    assert_eq!(
        texts(&cargo_build_args(&minimal)),
        vec!["build", "--manifest-path", "<manifest>", "--target-dir", "<target-dir>"]
    );
    let full = BuildRequest {
        package: Some("my-plugin".into()),
        all_features: true,
        no_default_features: true,
        features: vec!["a".into(), "b c".into()],
        release: true,
        target: Some("i686-pc-windows-msvc".into()),
        cargo_args: vec!["--locked".into()],
    };
    assert_eq!(
        texts(&cargo_build_args(&full)),
        vec![
            "build", "--manifest-path", "<manifest>", "--target-dir", "<target-dir>",
            "--package", "my-plugin", "--all-features", "--no-default-features", "--features",
            "a", "--features", "b c", "--release", "--target", "i686-pc-windows-msvc", "--locked"
        ]
    );
}

#[test]
fn output_names_and_paths() {
    assert_eq!(profile_dir(true), "release");
    assert_eq!(profile_dir(false), "debug");
    assert_eq!(plugin_file_name("danmuji-rust-example-plugin"), "danmuji_rust_example_plugin.dll");
    assert_eq!(native_dll_components(None, "debug", "my_plugin"), vec!["debug", "my_plugin.dll"]);
    assert_eq!(
        native_dll_components(Some("i686-pc-windows-msvc"), "release", "p"),
        vec!["i686-pc-windows-msvc", "release", "p.dll"]
    );
}

fn package(name: &str, manifest: &str, targets: &[(&str, &[&str])]) -> PackageInfo {
    PackageInfo {
        name: name.to_string(),
        manifest_path: manifest.to_string(),
        targets: targets
            .iter()
            .map(|(n, kinds)| TargetInfo {
                name: n.to_string(),
                crate_types: kinds.iter().map(|k| k.to_string()).collect(),
            })
            .collect(),
    }
}

#[test]
fn cdylib_targets() {
    let p = package("p", "/w/p/Cargo.toml", &[("bin", &["bin"]), ("p_lib", &["rlib", "cdylib"]), ("other", &["cdylib"])]);
    assert_eq!(cdylib_target_name(&p).unwrap(), "p_lib");
    let q = package("q", "/w/q/Cargo.toml", &[("q", &["lib"])]);
    assert!(matches!(cdylib_target_name(&q), Err(PackageError::NoCdylib { ref package }) if package == "q"));
}

#[test]
fn package_selection() {
    let packages = vec![
        package("a", "/w/a/Cargo.toml", &[]),
        package("b", "/w/b/Cargo.toml", &[]),
        package("b", "/w/b2/Cargo.toml", &[]),
    ];
    assert_eq!(select_package(&packages, "/w/Cargo.toml", Some("b"), None).unwrap(), 1);
    assert!(matches!(
        select_package(&packages, "/w/Cargo.toml", Some("c"), Some(0)),
        Err(PackageError::NotFound { ref name }) if name == "c"
    ));
    assert_eq!(select_package(&packages, "/w/b2/Cargo.toml", None, Some(0)).unwrap(), 2);
    assert_eq!(select_package(&packages, "/w/Cargo.toml", None, Some(1)).unwrap(), 1);
    assert!(matches!(select_package(&packages, "/w/Cargo.toml", None, None), Err(PackageError::NameRequired)));
    assert_eq!(select_package_by(&packages, None, &vec![false, true, true], None).unwrap(), 1);
}

#[test]
fn package_of_the_manifest_wins_over_the_root() {
    let packages = vec![
        package("a", "/w/a/Cargo.toml", &[]),
        package("b", "/w/b/Cargo.toml", &[]),
        package("c", "/w/c/Cargo.toml", &[]),
    ];
    assert_eq!(select_package(&packages, "/w/a/Cargo.toml", None, Some(2)).unwrap(), 0);
    assert_eq!(select_package(&packages, "/w/b/Cargo.toml", None, Some(0)).unwrap(), 1);
}

#[test]
fn error_messages() {
    assert_eq!(
        SelectionError::WholeWorkspace.message(),
        "cargo danmuji build packages one plugin DLL; use --package to select one package"
    );
    assert_eq!(
        SelectionError::SeveralPackages.message(),
        "cargo danmuji build packages one plugin DLL; pass only one --package"
    );
    assert_eq!(
        PackageError::NotFound { name: "x".to_string() }.message(),
        "package `x` not found in workspace metadata"
    );
    assert_eq!(
        PackageError::NameRequired.message(),
        "package name is required; pass --package"
    );
    assert_eq!(
        PackageError::NoCdylib { package: "p".to_string() }.message(),
        "package `p` has no cdylib target; add [lib] crate-type = [\"cdylib\"]"
    );
}

#[test]
fn plain_manifests_choose_the_first_equal_text_else_the_root() {
    let packages = vec![
        package("a", "/w/a/Cargo.toml", &[]),
        package("b", "/w/b/Cargo.toml", &[]),
        package("b2", "/w/b/Cargo.toml", &[]),
    ];
    assert_eq!(select_package(&packages, "/w/b/Cargo.toml", None, Some(0)).unwrap(), 1);
    assert_eq!(select_package(&packages, "/w/x/Cargo.toml", None, Some(2)).unwrap(), 2);
    assert!(matches!(
        select_package(&packages, "/w/x/Cargo.toml", None, None),
        Err(PackageError::NameRequired)
    ));
}

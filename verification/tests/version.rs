use danmuji::bridge::{
    sdk_version_source, upgrade_version_file, SdkVersionSource, UpgradeOutcome, VersionUpgrade,
};
use danmuji::version::{
    compare_version_key, latest_numeric_tag, non_empty_version, numeric_tag_key,
    parse_version_text, version_file_contents, VersionError, VersionOrder,
};
use std::path::PathBuf;

#[test]
fn numeric_tags_parse_to_keys() {
    assert_eq!(numeric_tag_key("v1.2.3"), Some(vec![1, 2, 3]));
    assert_eq!(numeric_tag_key("2024.10"), Some(vec![2024, 10]));
    assert_eq!(numeric_tag_key("007"), Some(vec![7]));
    assert_eq!(numeric_tag_key("18446744073709551615"), Some(vec![u64::MAX]));
}

#[test]
fn non_numeric_tags_have_no_key() {
    assert_eq!(numeric_tag_key(""), None);
    assert_eq!(numeric_tag_key("v"), None);
    assert_eq!(numeric_tag_key("1..2"), None);
    assert_eq!(numeric_tag_key("1.2."), None);
    assert_eq!(numeric_tag_key("1.2-beta"), None);
    assert_eq!(numeric_tag_key("V1.2"), None);
    assert_eq!(numeric_tag_key("vv1"), None);
    assert_eq!(numeric_tag_key("+1"), None);
    assert_eq!(numeric_tag_key("18446744073709551616"), None);
}

#[test]
fn keys_compare_with_zero_padding() {
    assert_eq!(compare_version_key(&[1, 2], &[1, 2, 0]), VersionOrder::Equal);
    assert_eq!(compare_version_key(&[1, 2], &[1, 10]), VersionOrder::Less);
    assert_eq!(compare_version_key(&[2], &[1, 99]), VersionOrder::Greater);
    assert_eq!(compare_version_key(&[1, 2, 1], &[1, 2]), VersionOrder::Greater);
    assert_eq!(compare_version_key(&[], &[0, 0]), VersionOrder::Equal);
    assert_eq!(compare_version_key(&[], &[0, 1]), VersionOrder::Less);
}

#[test]
fn compare_is_antisymmetric_on_examples() {
    let keys: Vec<Vec<u64>> = vec![vec![], vec![0], vec![1], vec![1, 0], vec![1, 2], vec![2, 0, 1]];
    for a in &keys {
        for b in &keys {
            let ab = compare_version_key(a, b);
            let ba = compare_version_key(b, a);
            let flipped = match ba {
                VersionOrder::Less => VersionOrder::Greater,
                VersionOrder::Equal => VersionOrder::Equal,
                VersionOrder::Greater => VersionOrder::Less,
            };
            assert_eq!(ab, flipped);
        }
    }
}

const LISTING: &str = "1111111111111111111111111111111111111111\trefs/tags/1.2.0\n\
2222222222222222222222222222222222222222\trefs/tags/v1.10\n\
3333333333333333333333333333333333333333\trefs/tags/nightly\n\
4444444444444444444444444444444444444444\trefs/tags/1.10.0\r\n\
5555555555555555555555555555555555555555\trefs/heads/9.9\n";

#[test]
fn latest_tag_is_the_greatest_numeric_one() {
    assert_eq!(latest_numeric_tag(LISTING), Some("v1.10".to_string()));
}

#[test]
fn latest_tag_of_equal_keys_is_the_first() {
    let listing = "a refs/tags/2.0\nb refs/tags/2\nc refs/tags/v2.0.0\n";
    assert_eq!(latest_numeric_tag(listing), Some("2.0".to_string()));
}

#[test]
fn listing_without_numeric_tags_has_no_latest() {
    assert_eq!(latest_numeric_tag(""), None);
    assert_eq!(latest_numeric_tag("abc refs/tags/beta\nabc refs/heads/1.0\nlonely\n"), None);
}

#[test]
fn version_text_reads_first_meaningful_line() {
    assert_eq!(parse_version_text("1.2.3\n"), Some("1.2.3".to_string()));
    assert_eq!(
        parse_version_text("# pinned SDK\n\n  v2.0  # comment\n3.0\n"),
        Some("v2.0".to_string())
    );
    assert_eq!(parse_version_text("  \n# only a comment\n"), None);
    assert_eq!(parse_version_text(""), None);
    assert_eq!(parse_version_text("\r\n4.5\r\n"), Some("4.5".to_string()));
}

#[test]
fn version_file_round_trips() {
    for version in ["1.2.3", "  v2.0\t", "2024.10.01"] {
        let contents = version_file_contents(version).unwrap();
        assert_eq!(contents, format!("{}\n", version.trim()));
        assert_eq!(parse_version_text(&contents), Some(version.trim().to_string()));
    }
}

#[test]
fn empty_versions_are_refused() {
    assert!(matches!(
        version_file_contents(" \n "),
        Err(VersionError::Empty { ref source }) if source == "sdk version"
    ));
    assert!(matches!(
        non_empty_version("", "--sdk-version"),
        Err(VersionError::Empty { ref source }) if source == "--sdk-version"
    ));
    assert_eq!(non_empty_version(" 1.0 ", "x").unwrap(), "1.0");
}

#[test]
fn upgrade_replaces_an_older_version() {
    let (upgrade, contents) =
        upgrade_version_file(PathBuf::from("/p/.danmuji-version"), Some("1.2.0\n"), LISTING).unwrap();
    assert_eq!(upgrade.path, PathBuf::from("/p/.danmuji-version"));
    assert_eq!(upgrade.old_version.as_deref(), Some("1.2.0"));
    assert_eq!(upgrade.new_version, "v1.10");
    assert_eq!(contents, "v1.10\n");
    assert_eq!(upgrade.outcome(), UpgradeOutcome::Updated);
}

#[test]
fn upgrade_outcomes() {
    let (created, _) = upgrade_version_file(PathBuf::from("v"), None, LISTING).unwrap();
    assert_eq!(created.outcome(), UpgradeOutcome::Created);
    let (same, _) = upgrade_version_file(PathBuf::from("v"), Some("v1.10"), LISTING).unwrap();
    assert_eq!(same.outcome(), UpgradeOutcome::AlreadyLatest);
    let manual = VersionUpgrade { path: PathBuf::from("x"), old_version: Some("1".into()), new_version: "2".into() };
    assert_eq!(manual.outcome(), UpgradeOutcome::Updated);
}

#[test]
fn upgrade_errors_come_in_order() {
    assert!(matches!(
        upgrade_version_file(PathBuf::from("v"), Some("# nothing\n"), ""),
        Err(VersionError::EmptyFile)
    ));
    assert!(matches!(
        upgrade_version_file(PathBuf::from("v"), Some("1.0\n"), "x refs/tags/beta\n"),
        Err(VersionError::NoNumericTags)
    ));
}

#[test]
fn sdk_version_sources() {
    assert!(matches!(sdk_version_source(Some(" 1.0 "), true), Ok(SdkVersionSource::Explicit(ref v)) if v == "1.0"));
    assert!(matches!(
        sdk_version_source(Some("  "), false),
        Err(VersionError::Empty { ref source }) if source == "--sdk-version"
    ));
    assert!(matches!(sdk_version_source(None, true), Ok(SdkVersionSource::VersionFile)));
    assert!(matches!(sdk_version_source(None, false), Ok(SdkVersionSource::Latest)));
}

#[test]
fn version_error_messages() {
    assert_eq!(
        VersionError::Empty { source: "--sdk-version".to_string() }.message("", "r"),
        "--sdk-version cannot be empty"
    );
    assert_eq!(
        VersionError::EmptyFile.message("/p/.danmuji-version", "r"),
        "/p/.danmuji-version is empty"
    );
    assert_eq!(
        VersionError::NoNumericTags.message("", "https://example.com/sdk.git"),
        "no numeric SDK tags found in https://example.com/sdk.git"
    );
}

use base64::Engine;
use mantle::styling::allowlist::is_allowed;
use mantle::styling::cache::{
    base_cache_dir, base_cache_dir_in, cache_probe_paths, cached_from, is_cached, last_good_path,
    last_good_path_in, safe_entry_path, safe_package_name, tool_dir, tool_dir_in, PathPart,
};
use mantle::styling::error::StyleError;
use mantle::styling::loader::{check_allowed, load_outcome};
use mantle::styling::registry::{digest_verdict, dist_integrity, registry_url, verify_sha512};
use mantle::styling::runner::{
    dart_vm_path, first_present, resolve_binary, select_binary, source_ext, tool_args, Binary,
};
use sha2::Digest;

fn make_integrity(data: &[u8]) -> String {
    let hash = sha2::Sha512::digest(data);
    format!("sha512-{}", base64::engine::general_purpose::STANDARD.encode(hash))
}

#[test]
fn known_packages_pass() {
    assert!(is_allowed("sass"));
    assert!(is_allowed("sass-embedded"));
    assert!(is_allowed("tailwindcss"));
    assert!(is_allowed("postcss"));
    assert!(is_allowed("autoprefixer"));
}

#[test]
fn unknown_packages_are_rejected() {
    assert!(!is_allowed("lodash"));
    assert!(!is_allowed("express"));
    assert!(!is_allowed("rm -rf /"));
    assert!(!is_allowed("../../etc/passwd"));
    assert!(!is_allowed(""));
}

#[test]
fn cache_dir_contains_mantle() {
    assert!(base_cache_dir().contains("mantle"));
    assert!(last_good_path().ends_with("last-good.css"));
}

#[test]
fn cache_dir_falls_back_to_home() {
    assert_eq!(base_cache_dir_in(Some("/c".to_string()), None), "/c/mantle/tooling");
    assert_eq!(base_cache_dir_in(None, Some("/home/u".to_string())), "/home/u/.cache/mantle/tooling");
    assert_eq!(base_cache_dir_in(None, None), "./.cache/mantle/tooling");
}

#[test]
fn tool_dir_encodes_pkg_and_version() {
    let d = tool_dir("sass", "1.69.5");
    assert!(d.ends_with("sass@1.69.5"));
}

#[test]
fn scoped_package_name_is_safe() {
    let d = tool_dir("@scope/pkg", "1.0.0");
    let filename = std::path::Path::new(&d).file_name().unwrap().to_string_lossy().into_owned();
    assert!(!filename.starts_with('@'), "filename starts with raw '@'");
    assert!(!filename.contains('/'), "filename contains '/'");
    assert!(!filename.contains('\\'), "filename contains '\\'");
    assert_eq!(safe_package_name("@scope/pkg"), "_at_scope_pkg");
    assert_eq!(tool_dir_in("/base", "@scope/pkg", "1.0.0"), "/base/_at_scope_pkg@1.0.0");
}

#[test]
fn tarball_entries_are_confined() {
    let n = |s: &str| PathPart::Normal(s.to_string());
    assert_eq!(
        safe_entry_path(&vec![n("package"), n("bin"), n("sass.js")]),
        Some(vec![n("bin"), n("sass.js")])
    );
    assert_eq!(safe_entry_path(&vec![n("package")]), None);
    assert_eq!(safe_entry_path(&vec![n("package"), PathPart::ParentDir, n("x")]), None);
    assert_eq!(safe_entry_path(&vec![PathPart::RootDir, n("etc")]), None);
    assert_eq!(safe_entry_path(&vec![n("other"), n("a")]), Some(vec![n("other"), n("a")]));
}

#[test]
fn valid_integrity_passes() {
    let data = b"hello world";
    let integrity = make_integrity(data);
    assert!(verify_sha512(&integrity, data).is_ok());
}

#[test]
fn tampered_data_fails() {
    let data = b"hello world";
    let integrity = make_integrity(data);
    assert!(verify_sha512(&integrity, b"tampered").is_err());
}

#[test]
fn multi_hash_integrity_picks_sha512() {
    let data = b"hello world";
    let sha512 = make_integrity(data);
    let combined = format!("sha256-AAAA {}", sha512);
    assert!(verify_sha512(&combined, data).is_ok());
}

#[test]
fn unsupported_algorithm_is_rejected() {
    let result = verify_sha512("sha1-abc123", b"data");
    assert!(matches!(result, Err(StyleError::UnsupportedIntegrity(_))));
}

#[test]
fn integrity_errors_carry_details() {
    match verify_sha512("sha512-!!!", b"data") {
        Err(StyleError::Base64(_)) => {}
        other => panic!("expected a base64 error, got {other:?}"),
    }
    let integrity = make_integrity(b"a");
    match verify_sha512(&integrity, b"b") {
        Err(StyleError::IntegrityMismatch { expected, actual }) => {
            assert_eq!(expected.len(), 128);
            assert_eq!(actual, hex::encode(sha2::Sha512::digest(b"b")));
            let msg = StyleError::IntegrityMismatch { expected: "e".into(), actual: "a".into() }.message();
            assert_eq!(msg, "integrity mismatch — expected e, got a");
        }
        other => panic!("expected a mismatch, got {other:?}"),
    }
}

#[test]
fn source_ext_for_sass() {
    assert_eq!(source_ext("sass"), "scss");
    assert_eq!(source_ext("sass-embedded"), "scss");
}

#[test]
fn source_ext_default_css() {
    assert_eq!(source_ext("tailwindcss"), "css");
    assert_eq!(source_ext("postcss"), "css");
}

#[test]
fn unknown_tool_errors() {
    match resolve_binary("webpack", "/tmp") {
        Err(StyleError::ToolFailed(m)) => assert_eq!(m, "no runner defined for 'webpack'"),
        _ => panic!("expected an error"),
    }
}

#[test]
fn missing_entry_points_are_reported() {
    match resolve_binary("tailwindcss", "/nonexistent-dir-for-mantle") {
        Err(StyleError::ToolFailed(m)) => {
            assert_eq!(m, "no tailwindcss binary found in /nonexistent-dir-for-mantle")
        }
        _ => panic!("expected an error"),
    }
    assert_eq!(dart_vm_path("/t"), "/t/dart-sass/src/dart");
}

#[test]
fn tool_arguments() {
    assert_eq!(tool_args("sass", "in.scss", "out.css"), vec!["in.scss", "out.css", "--no-source-map"]);
    assert_eq!(tool_args("tailwindcss", "i", "o"), vec!["-i", "i", "-o", "o"]);
    assert_eq!(tool_args("postcss", "i", "o"), vec!["i", "o"]);
    let _ = Binary::NodeScript("x".to_string());
}

#[test]
fn loads_fall_back_to_last_good() {
    assert!(check_allowed("sass").is_ok());
    assert!(matches!(check_allowed("lodash"), Err(StyleError::NotAllowed(t)) if t == "lodash"));
    let ok = load_outcome(Ok("a{}".to_string()), Some("b{}".to_string())).unwrap();
    assert_eq!(ok.css, "a{}");
    assert!(!ok.from_cache);
    let cached = load_outcome(Err(StyleError::ToolFailed("x".into())), Some("b{}".to_string())).unwrap();
    assert_eq!(cached.css, "b{}");
    assert!(cached.from_cache);
    assert!(load_outcome(Err(StyleError::ToolFailed("x".into())), None).is_err());
}

#[test]
fn never_fetched_version_is_not_cached() {
    assert!(!is_cached("sass", "0.0.0-never-published"));
}

#[test]
fn registry_url_is_the_npm_document() {
    assert_eq!(registry_url("sass", "1.77.0"), "https://registry.npmjs.org/sass/1.77.0");
    assert_eq!(
        registry_url("@tailwindcss/cli", "4.0.0"),
        "https://registry.npmjs.org/@tailwindcss/cli/4.0.0"
    );
}

#[test]
fn missing_integrity_is_unsupported() {
    assert_eq!(dist_integrity(Some("sha512-abc".to_string()), "sass", "1.0.0").unwrap(), "sha512-abc");
    match dist_integrity(None, "sass", "1.0.0") {
        Err(StyleError::UnsupportedIntegrity(m)) => assert_eq!(m, "no integrity field for sass@1.0.0"),
        other => panic!("unexpected {other:?}"),
    }
}

#[test]
fn cached_needs_directory_and_sentinel() {
    assert!(cached_from(true, true));
    assert!(!cached_from(true, false));
    assert!(!cached_from(false, true));
    let (dir, ok) = cache_probe_paths("@scope/pkg", "1.0.0");
    assert!(dir.ends_with("/mantle/tooling/_at_scope_pkg@1.0.0"));
    assert_eq!(ok, format!("{dir}/.ok"));
    assert_eq!(dir, tool_dir("@scope/pkg", "1.0.0"));
}

#[test]
fn last_good_sits_beside_tool_dirs() {
    assert_eq!(last_good_path_in("/c/mantle/tooling"), "/c/mantle/tooling/last-good.css");
    let base = base_cache_dir();
    assert_eq!(last_good_path(), format!("{base}/last-good.css"));
    assert_eq!(tool_dir("sass", "1.69.5"), format!("{base}/sass@1.69.5"));
}

#[test]
fn first_present_entry_point_wins() {
    assert_eq!(first_present(&vec![false, true, true]), Some(1));
    assert_eq!(first_present(&vec![false, false]), None);
    assert_eq!(first_present(&vec![]), None);
    let cands = vec![
        Binary::DartSnapshot { dart: "d".into(), snapshot: "s".into() },
        Binary::NodeScript("a.js".into()),
        Binary::NodeScript("b.js".into()),
    ];
    assert_eq!(select_binary(cands.clone(), &vec![true, true, false]), Some(cands[0].clone()));
    assert_eq!(select_binary(cands.clone(), &vec![false, false, true]), Some(cands[2].clone()));
    assert_eq!(select_binary(cands, &vec![false, false, false]), None);
}

#[test]
fn digest_verdict_compares_and_reports_hex() {
    assert!(digest_verdict(&[1, 2, 3], &[1, 2, 3]).is_ok());
    match digest_verdict(&[0xab], &[0x0c, 0xd0]) {
        Err(StyleError::IntegrityMismatch { expected, actual }) => {
            assert_eq!(expected, "ab");
            assert_eq!(actual, "0cd0");
        }
        other => panic!("unexpected {other:?}"),
    }
}

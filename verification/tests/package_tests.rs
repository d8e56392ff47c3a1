//! Whole-package validation against real directories: the existence checks
//! and the recursive banned-extension scan run on disk.

use eml_validate::error::ValidationError;
use eml_validate::pipeline::validate_package;

fn manifest_a() -> &'static str {
    "{\"name\":\"Test\",\"game\":\"em2\",\"platform\":\"wii\",\"icon_path\":\"icon.png\"}"
}

fn named_file_in(dir: &std::path::Path, prefix: &str, suffix: &str) -> tempfile::NamedTempFile {
    tempfile::Builder::new()
        .prefix(prefix)
        .suffix(suffix)
        .rand_bytes(0)
        .tempfile_in(dir)
        .unwrap()
}

fn named_dir_in(dir: &std::path::Path, prefix: &str) -> tempfile::TempDir {
    tempfile::Builder::new()
        .prefix(prefix)
        .rand_bytes(0)
        .tempdir_in(dir)
        .unwrap()
}

#[test]
fn package_with_icon_is_accepted_and_normalized() {
    let root = tempfile::tempdir().unwrap();
    let _icon = named_file_in(root.path(), "icon", ".png");
    let r = validate_package(root.path().to_str().unwrap(), Some(manifest_a()), None);
    let info = r.unwrap();
    assert_eq!(info.game, "EM2");
    assert_eq!(info.platform, "wii");
    assert!(info.auto_generated_tags.is_empty());
}

#[test]
fn textures_directory_enables_the_texture_tag() {
    let root = tempfile::tempdir().unwrap();
    let _icon = named_file_in(root.path(), "icon", ".png");
    let _tex = named_dir_in(root.path(), "textures");
    let text = "{\"name\":\"Test\",\"game\":\"em2\",\"platform\":\"wii\",\
                 \"icon_path\":\"icon.png\",\"custom_textures_path\":\"textures\"}";
    let info = validate_package(root.path().to_str().unwrap(), Some(text), None).unwrap();
    assert_eq!(info.auto_generated_tags, vec!["texture-mod".to_string()]);
}

#[test]
fn missing_capability_directory_fails() {
    let root = tempfile::tempdir().unwrap();
    let _icon = named_file_in(root.path(), "icon", ".png");
    let text = "{\"name\":\"Test\",\"game\":\"em2\",\"platform\":\"wii\",\
                 \"icon_path\":\"icon.png\",\"custom_textures_path\":\"textures\"}";
    let r = validate_package(root.path().to_str().unwrap(), Some(text), None);
    assert!(matches!(
        r.unwrap_err(),
        ValidationError::PathNotFound(eml_validate::error::PathField::Textures)
    ));
}

#[test]
fn missing_icon_fails() {
    let root = tempfile::tempdir().unwrap();
    let r = validate_package(root.path().to_str().unwrap(), Some(manifest_a()), None);
    assert!(matches!(
        r.unwrap_err(),
        ValidationError::PathNotFound(eml_validate::error::PathField::Icon)
    ));
}

#[test]
fn a_banned_file_anywhere_fails_the_scan() {
    let root = tempfile::tempdir().unwrap();
    let _icon = named_file_in(root.path(), "icon", ".png");
    let sub = named_dir_in(root.path(), "data");
    let _payload = named_file_in(sub.path(), "payload", ".exe");
    let r = validate_package(root.path().to_str().unwrap(), Some(manifest_a()), None);
    match r.unwrap_err() {
        ValidationError::BannedFileExtension(e) => assert_eq!(e, "exe"),
        other => panic!("expected the banned-extension error, got {:?}", other),
    }
}

#[test]
fn banned_extension_matching_ignores_case() {
    let root = tempfile::tempdir().unwrap();
    let _icon = named_file_in(root.path(), "icon", ".png");
    let _payload = named_file_in(root.path(), "payload", ".ExE");
    let r = validate_package(root.path().to_str().unwrap(), Some(manifest_a()), None);
    match r.unwrap_err() {
        ValidationError::BannedFileExtension(e) => assert_eq!(e, "exe"),
        other => panic!("expected the banned-extension error, got {:?}", other),
    }
}

#[test]
fn missing_manifest_text_means_the_manifest_file_is_missing() {
    let root = tempfile::tempdir().unwrap();
    let r = validate_package(root.path().to_str().unwrap(), None, None);
    assert_eq!(r.unwrap_err(), ValidationError::ManifestMissing);
}

#[test]
fn unparseable_manifest_is_malformed() {
    let root = tempfile::tempdir().unwrap();
    let r = validate_package(root.path().to_str().unwrap(), Some("{{nope"), None);
    assert_eq!(r.unwrap_err(), ValidationError::ManifestMalformed);
}

#[test]
fn validation_is_idempotent_over_an_unmodified_root() {
    let root = tempfile::tempdir().unwrap();
    let _icon = named_file_in(root.path(), "icon", ".png");
    let first = validate_package(root.path().to_str().unwrap(), Some(manifest_a()), None);
    let second = validate_package(root.path().to_str().unwrap(), Some(manifest_a()), None);
    assert_eq!(first, second);
    let third = validate_package(
        root.path().to_str().unwrap(),
        Some(manifest_a()),
        Some("a description"),
    );
    let fourth = validate_package(
        root.path().to_str().unwrap(),
        Some(manifest_a()),
        Some("a description"),
    );
    assert_eq!(third, fourth);
    assert_eq!(third.unwrap().shortdescription, "clone");
}

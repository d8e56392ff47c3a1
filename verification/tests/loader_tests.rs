use eml_validate::error::ValidationError;
use eml_validate::json::load_manifest;

fn full_manifest() -> &'static str {
    "{\"name\":\"My Mod\",\"game\":\"em2\",\"platform\":\"wii\",\
      \"shortdescription\":\" short \",\"description\":\"inline\",\
      \"dependencies\":[\"alpha\",\"beta2\"],\
      \"custom_textures_path\":\"textures\",\
      \"custom_game_files_path\":\"games\",\
      \"scripts_path\":\"scripts\",\
      \"icon_path\":\"icon.png\"}"
}

#[test]
fn loads_every_field() {
    let raw = load_manifest(full_manifest()).unwrap();
    assert_eq!(raw.name, "My Mod");
    assert_eq!(raw.game, "em2");
    assert_eq!(raw.platform, "wii");
    assert_eq!(raw.shortdescription.as_deref(), Some(" short "));
    assert_eq!(raw.description.as_deref(), Some("inline"));
    assert_eq!(
        raw.dependencies,
        Some(vec!["alpha".to_string(), "beta2".to_string()])
    );
    assert_eq!(raw.custom_textures_path.as_deref(), Some("textures"));
    assert_eq!(raw.custom_game_files_path.as_deref(), Some("games"));
    assert_eq!(raw.scripts_path.as_deref(), Some("scripts"));
    assert_eq!(raw.icon_path, "icon.png");
}

#[test]
fn optional_fields_may_be_absent() {
    let raw = load_manifest(
        "{\"name\":\"n\",\"game\":\"em2\",\"platform\":\"wii\",\"icon_path\":\"i.png\"}",
    )
    .unwrap();
    assert!(raw.shortdescription.is_none());
    assert!(raw.description.is_none());
    assert!(raw.dependencies.is_none());
    assert!(raw.custom_textures_path.is_none());
    assert!(raw.custom_game_files_path.is_none());
    assert!(raw.scripts_path.is_none());
}

#[test]
fn unknown_keys_are_ignored() {
    let raw = load_manifest(
        "{\"name\":\"n\",\"game\":\"em2\",\"platform\":\"wii\",\"icon_path\":\"i.png\",\
          \"future_field\":{\"x\":1}}",
    )
    .unwrap();
    assert_eq!(raw.name, "n");
}

#[test]
fn missing_required_key_is_malformed() {
    let r = load_manifest("{\"game\":\"em2\",\"platform\":\"wii\",\"icon_path\":\"i.png\"}");
    assert_eq!(r.unwrap_err(), ValidationError::ManifestMalformed);
}

#[test]
fn mistyped_required_key_is_malformed() {
    let r = load_manifest(
        "{\"name\":7,\"game\":\"em2\",\"platform\":\"wii\",\"icon_path\":\"i.png\"}",
    );
    assert_eq!(r.unwrap_err(), ValidationError::ManifestMalformed);
}

#[test]
fn mistyped_optional_key_is_malformed() {
    let r = load_manifest(
        "{\"name\":\"n\",\"game\":\"em2\",\"platform\":\"wii\",\"icon_path\":\"i.png\",\
          \"scripts_path\":3}",
    );
    assert_eq!(r.unwrap_err(), ValidationError::ManifestMalformed);
}

#[test]
fn mistyped_dependencies_are_malformed() {
    let r = load_manifest(
        "{\"name\":\"n\",\"game\":\"em2\",\"platform\":\"wii\",\"icon_path\":\"i.png\",\
          \"dependencies\":\"alpha\"}",
    );
    assert_eq!(r.unwrap_err(), ValidationError::ManifestMalformed);
    let r = load_manifest(
        "{\"name\":\"n\",\"game\":\"em2\",\"platform\":\"wii\",\"icon_path\":\"i.png\",\
          \"dependencies\":[\"alpha\",4]}",
    );
    assert_eq!(r.unwrap_err(), ValidationError::ManifestMalformed);
}

#[test]
fn non_object_text_is_malformed() {
    assert_eq!(
        load_manifest("[1,2,3]").unwrap_err(),
        ValidationError::ManifestMalformed
    );
    assert_eq!(
        load_manifest("not json at all").unwrap_err(),
        ValidationError::ManifestMalformed
    );
    assert_eq!(
        load_manifest("").unwrap_err(),
        ValidationError::ManifestMalformed
    );
}

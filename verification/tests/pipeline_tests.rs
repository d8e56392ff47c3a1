use eml_validate::error::{PathField, ValidationError};
use eml_validate::manifest::RawManifest;
use eml_validate::pipeline::{validate_record, PathFacts};

fn minimal_raw() -> RawManifest {
    RawManifest {
        name: "Test".to_string(),
        game: "em2".to_string(),
        platform: "wii".to_string(),
        shortdescription: None,
        description: None,
        dependencies: None,
        custom_textures_path: None,
        custom_game_files_path: None,
        scripts_path: None,
        icon_path: "icon.png".to_string(),
    }
}

fn icon_only_facts() -> PathFacts {
    PathFacts {
        game_files_exists: false,
        textures_exists: false,
        scripts_exists: false,
        icon_exists: true,
    }
}

#[test]
fn minimal_manifest_accepted_with_canonical_case_and_no_tags() {
    let info = validate_record(&minimal_raw(), None, &icon_only_facts()).unwrap();
    assert_eq!(info.name, "Test");
    assert_eq!(info.game, "EM2");
    assert_eq!(info.platform, "wii");
    assert!(info.auto_generated_tags.is_empty());
    assert_eq!(info.description, "");
    assert_eq!(info.shortdescription, "");
    assert_eq!(info.icon_path, "icon.png");
}

#[test]
fn textures_on_console_yield_the_texture_tag() {
    let mut raw = minimal_raw();
    raw.custom_textures_path = Some("textures".to_string());
    let mut facts = icon_only_facts();
    facts.textures_exists = true;
    let info = validate_record(&raw, None, &facts).unwrap();
    assert_eq!(info.auto_generated_tags, vec!["texture-mod".to_string()]);
    assert_eq!(info.custom_textures_path, "textures");
}

#[test]
fn every_capability_yields_its_tag_in_order() {
    let mut raw = minimal_raw();
    raw.game = "EMR".to_string();
    raw.platform = "PC".to_string();
    raw.custom_game_files_path = Some("games".to_string());
    raw.scripts_path = Some("scripts".to_string());
    let facts = PathFacts {
        game_files_exists: true,
        textures_exists: false,
        scripts_exists: true,
        icon_exists: true,
    };
    let info = validate_record(&raw, None, &facts).unwrap();
    assert_eq!(
        info.auto_generated_tags,
        vec!["gamefile-mod".to_string(), "script-mod".to_string()]
    );
}

#[test]
fn forbidden_pair_rejected_before_path_checks() {
    let mut raw = minimal_raw();
    raw.game = "EM1".to_string();
    raw.platform = "pc".to_string();
    // No filesystem answer is true, yet the matrix decides first.
    let facts = PathFacts {
        game_files_exists: false,
        textures_exists: false,
        scripts_exists: false,
        icon_exists: false,
    };
    let r = validate_record(&raw, None, &facts);
    assert_eq!(r.unwrap_err(), ValidationError::IncompatibleGamePlatform);
}

#[test]
fn forbidden_pair_rejected_in_any_case() {
    for (g, p) in [("EMR", "WII"), ("emr", "wii"), ("Em1", "Pc")] {
        let mut raw = minimal_raw();
        raw.game = g.to_string();
        raw.platform = p.to_string();
        let r = validate_record(&raw, None, &icon_only_facts());
        assert_eq!(r.unwrap_err(), ValidationError::IncompatibleGamePlatform);
    }
}

#[test]
fn hyphened_dependency_rejected() {
    let mut raw = minimal_raw();
    raw.dependencies = Some(vec!["core-mod".to_string()]);
    let r = validate_record(&raw, None, &icon_only_facts());
    assert_eq!(r.unwrap_err(), ValidationError::InvalidDependencyName);
}

#[test]
fn dependencies_are_trimmed_before_the_check_and_kept_as_given() {
    let mut raw = minimal_raw();
    raw.dependencies = Some(vec![" alpha ".to_string(), "beta2".to_string()]);
    let info = validate_record(&raw, None, &icon_only_facts()).unwrap();
    assert_eq!(
        info.dependencies,
        vec![" alpha ".to_string(), "beta2".to_string()]
    );
}

#[test]
fn blank_name_rejected() {
    let mut raw = minimal_raw();
    raw.name = "  \t".to_string();
    let r = validate_record(&raw, None, &icon_only_facts());
    assert_eq!(r.unwrap_err(), ValidationError::EmptyName);
}

#[test]
fn blank_description_file_rejected() {
    let r = validate_record(&minimal_raw(), Some("  \n"), &icon_only_facts());
    assert_eq!(r.unwrap_err(), ValidationError::EmptyDescription);
}

#[test]
fn description_file_overrides_and_is_trimmed() {
    let mut raw = minimal_raw();
    raw.description = Some("inline".to_string());
    let info = validate_record(&raw, Some("  from the file \n"), &icon_only_facts()).unwrap();
    assert_eq!(info.description, "from the file");
}

#[test]
fn inline_description_kept_without_a_file() {
    let mut raw = minimal_raw();
    raw.description = Some("inline".to_string());
    let info = validate_record(&raw, None, &icon_only_facts()).unwrap();
    assert_eq!(info.description, "inline");
}

#[test]
fn missing_short_description_defaults_to_the_sentinel() {
    let info = validate_record(&minimal_raw(), Some("long text"), &icon_only_facts()).unwrap();
    assert_eq!(info.shortdescription, "clone");
    assert_eq!(info.description, "long text");
}

#[test]
fn short_description_is_trimmed_when_present() {
    let mut raw = minimal_raw();
    raw.shortdescription = Some("  brief  ".to_string());
    let info = validate_record(&raw, Some("long text"), &icon_only_facts()).unwrap();
    assert_eq!(info.shortdescription, "brief");
}

#[test]
fn unknown_game_and_platform_rejected() {
    let mut raw = minimal_raw();
    raw.game = "EM9".to_string();
    assert_eq!(
        validate_record(&raw, None, &icon_only_facts()).unwrap_err(),
        ValidationError::UnsupportedGame
    );
    let mut raw = minimal_raw();
    raw.platform = "xbox".to_string();
    assert_eq!(
        validate_record(&raw, None, &icon_only_facts()).unwrap_err(),
        ValidationError::UnsupportedPlatform
    );
}

#[test]
fn textures_not_allowed_on_desktop() {
    let mut raw = minimal_raw();
    raw.game = "EM2".to_string();
    raw.platform = "pc".to_string();
    raw.custom_textures_path = Some("textures".to_string());
    let r = validate_record(&raw, None, &icon_only_facts());
    assert_eq!(
        r.unwrap_err(),
        ValidationError::CapabilityNotAllowed(PathField::Textures)
    );
}

#[test]
fn scripts_only_with_the_scripting_pair() {
    let mut raw = minimal_raw();
    raw.scripts_path = Some("scripts".to_string());
    let r = validate_record(&raw, None, &icon_only_facts());
    assert_eq!(
        r.unwrap_err(),
        ValidationError::CapabilityNotAllowed(PathField::Scripts)
    );
}

#[test]
fn path_field_errors_are_named_per_field() {
    let mut raw = minimal_raw();
    raw.custom_game_files_path = Some("  ".to_string());
    assert_eq!(
        validate_record(&raw, None, &icon_only_facts()).unwrap_err(),
        ValidationError::EmptyPath(PathField::GameFiles)
    );
    let mut raw = minimal_raw();
    raw.custom_game_files_path = Some("/abs".to_string());
    assert_eq!(
        validate_record(&raw, None, &icon_only_facts()).unwrap_err(),
        ValidationError::AbsolutePathNotAllowed(PathField::GameFiles)
    );
    let mut raw = minimal_raw();
    raw.custom_game_files_path = Some("games".to_string());
    assert_eq!(
        validate_record(&raw, None, &icon_only_facts()).unwrap_err(),
        ValidationError::PathNotFound(PathField::GameFiles)
    );
}

#[test]
fn icon_checks() {
    let mut raw = minimal_raw();
    raw.icon_path = " ".to_string();
    assert_eq!(
        validate_record(&raw, None, &icon_only_facts()).unwrap_err(),
        ValidationError::EmptyPath(PathField::Icon)
    );
    let mut raw = minimal_raw();
    raw.icon_path = "/icon.png".to_string();
    assert_eq!(
        validate_record(&raw, None, &icon_only_facts()).unwrap_err(),
        ValidationError::AbsolutePathNotAllowed(PathField::Icon)
    );
    let mut facts = icon_only_facts();
    facts.icon_exists = false;
    assert_eq!(
        validate_record(&minimal_raw(), None, &facts).unwrap_err(),
        ValidationError::PathNotFound(PathField::Icon)
    );
}

#[test]
fn icon_path_is_stored_trimmed() {
    let mut raw = minimal_raw();
    raw.icon_path = " icon.png ".to_string();
    let info = validate_record(&raw, None, &icon_only_facts()).unwrap();
    assert_eq!(info.icon_path, "icon.png");
}

#[test]
fn the_record_check_is_deterministic() {
    let raw = minimal_raw();
    let a = validate_record(&raw, Some("text"), &icon_only_facts());
    let b = validate_record(&raw, Some("text"), &icon_only_facts());
    assert_eq!(a, b);
}

#[test]
fn error_messages_are_rendered() {
    assert_eq!(
        ValidationError::EmptyName.message(),
        "mod name is empty."
    );
    assert_eq!(
        ValidationError::BannedFileExtension("exe".to_string()).message(),
        "mod contains illegal file (exe)"
    );
    assert_eq!(
        ValidationError::PathNotFound(PathField::Textures).message(),
        "custom textures path does not exist."
    );
}

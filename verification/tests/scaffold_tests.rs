use eml_validate::error::ValidationError;
use eml_validate::manifest::RawManifest;
use eml_validate::pipeline::{validate_record, PathFacts};
use eml_validate::scaffold::plan_project;

#[test]
fn console_plan_has_textures_and_game_files() {
    let plan = plan_project("em2", "wii").unwrap();
    assert_eq!(plan.info.game, "EM2");
    assert_eq!(plan.info.platform, "wii");
    assert_eq!(plan.info.name, "Auto Generated Mod");
    assert_eq!(plan.info.shortdescription, "Generated with eml-validate");
    assert_eq!(plan.info.custom_textures_path, "textures");
    assert_eq!(plan.info.custom_game_files_path, "games");
    assert_eq!(plan.info.scripts_path, "");
    assert_eq!(plan.info.icon_path, "icon.png");
    assert!(plan.info.auto_generated_tags.is_empty());
    assert_eq!(plan.dirs, vec!["games".to_string(), "textures".to_string()]);
}

#[test]
fn scripting_pair_plan_has_scripts_and_no_textures() {
    let plan = plan_project("EMR", "PC").unwrap();
    assert_eq!(plan.info.custom_textures_path, "");
    assert_eq!(plan.info.scripts_path, "scripts");
    assert_eq!(plan.dirs, vec!["scripts".to_string(), "games".to_string()]);
}

#[test]
fn forbidden_pairs_are_rejected_before_any_plan() {
    assert_eq!(
        plan_project("em1", "pc").unwrap_err(),
        ValidationError::IncompatibleGamePlatform
    );
    assert_eq!(
        plan_project("EMR", "wii").unwrap_err(),
        ValidationError::IncompatibleGamePlatform
    );
}

#[test]
fn unknown_identifiers_are_rejected() {
    assert_eq!(
        plan_project("em9", "pc").unwrap_err(),
        ValidationError::UnsupportedGame
    );
    assert_eq!(
        plan_project("em2", "switch").unwrap_err(),
        ValidationError::UnsupportedPlatform
    );
}

#[test]
fn a_scaffolded_record_would_validate() {
    let plan = plan_project("em2", "wii").unwrap();
    let raw = RawManifest {
        name: plan.info.name.clone(),
        game: plan.info.game.clone(),
        platform: plan.info.platform.clone(),
        shortdescription: Some(plan.info.shortdescription.clone()),
        description: None,
        dependencies: None,
        custom_textures_path: Some(plan.info.custom_textures_path.clone()),
        custom_game_files_path: Some(plan.info.custom_game_files_path.clone()),
        scripts_path: None,
        icon_path: plan.info.icon_path.clone(),
    };
    let facts = PathFacts {
        game_files_exists: true,
        textures_exists: true,
        scripts_exists: false,
        icon_exists: true,
    };
    let info = validate_record(&raw, None, &facts).unwrap();
    assert_eq!(
        info.auto_generated_tags,
        vec!["gamefile-mod".to_string(), "texture-mod".to_string()]
    );
}

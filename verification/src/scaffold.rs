//! The scaffold planner: for a supported, compatible game/platform pair it
//! lays out the default package record and the directories the pair's
//! capabilities call for. The caller creates the directories and writes the
//! manifest; nothing may be written when the pair is rejected.

use vstd::prelude::*;
use vstd::string::{StringExecFns, StrSliceExecFns};
use crate::error::{ErrorV, ValidationError};
use crate::manifest::{ModInfo, ModInfoV};
use crate::rules::{
    forbidden_pair, game_canonical, game_name, is_forbidden_pair, match_game, match_platform,
    parse_game, parse_platform, platform_canonical, platform_name, scripting_allowed,
    textures_allowed, Game, Platform,
};

verus! {

/// What a fresh package skeleton holds: the default record to write as the
/// manifest, and the capability directories to create, in order.
#[derive(Debug)]
pub struct ProjectPlan {
    pub info: ModInfo,
    pub dirs: Vec<String>,
}

/// The default textures path of the pair: set only where textures are
/// allowed.
pub open spec fn default_textures(p: Platform) -> Seq<char> {
    if textures_allowed(p) {
        "textures"@
    } else {
        Seq::empty()
    }
}

/// The default scripts path of the pair: set only where scripting is
/// supported.
pub open spec fn default_scripts(g: Game, p: Platform) -> Seq<char> {
    if scripting_allowed(g, p) {
        "scripts"@
    } else {
        Seq::empty()
    }
}

/// The default record a scaffolded package starts from.
pub open spec fn spec_default_info(g: Game, p: Platform) -> ModInfoV {
    ModInfoV {
        name: "Auto Generated Mod"@,
        game: game_name(g),
        platform: platform_name(p),
        description: Seq::empty(),
        shortdescription: "Generated with eml-validate"@,
        dependencies: Seq::empty(),
        custom_textures_path: default_textures(p),
        custom_game_files_path: "games"@,
        scripts_path: default_scripts(g, p),
        icon_path: "icon.png"@,
        auto_generated_tags: Seq::empty(),
    }
}

/// The directories the plan creates: every non-empty capability path, scripts
/// first, then game files, then textures.
pub open spec fn spec_plan_dirs(g: Game, p: Platform) -> Seq<Seq<char>> {
    (if default_scripts(g, p).len() > 0 {
        seq![default_scripts(g, p)]
    } else {
        Seq::<Seq<char>>::empty()
    }) + seq!["games"@] + (if default_textures(p).len() > 0 {
        seq![default_textures(p)]
    } else {
        Seq::<Seq<char>>::empty()
    })
}

/// What planning decides for a pair of identifier texts: an unrecognized
/// identifier or a forbidden pair is rejected, and an accepted pair yields
/// the default record with the directories its capabilities call for.
pub open spec fn spec_plan(game: Seq<char>, platform: Seq<char>) -> Result<
    (ModInfoV, Seq<Seq<char>>),
    ErrorV,
> {
    if match_game(game) is None {
        Err(ErrorV::UnsupportedGame)
    } else if match_platform(platform) is None {
        Err(ErrorV::UnsupportedPlatform)
    } else {
        let g = match_game(game)->0;
        let p = match_platform(platform)->0;
        if forbidden_pair(g, p) {
            Err(ErrorV::IncompatibleGamePlatform)
        } else {
            Ok((spec_default_info(g, p), spec_plan_dirs(g, p)))
        }
    }
}

/// Plan a fresh package skeleton for the pair, exactly as [`spec_plan`]
/// states. The identifiers are matched without regard to ASCII case; the
/// returned record carries them in canonical case.
pub fn plan_project(game: &str, platform: &str) -> (r: Result<ProjectPlan, ValidationError>)
    ensures
        match r {
            Ok(plan) => spec_plan(game@, platform@) == Ok::<(ModInfoV, Seq<Seq<char>>), ErrorV>(
                (plan.info@, plan.dirs.deep_view()),
            ),
            Err(e) => spec_plan(game@, platform@) == Err::<(ModInfoV, Seq<Seq<char>>), ErrorV>(e@),
        },
{
    let g = match parse_game(game) {
        Some(g) => g,
        None => {
            return Err(ValidationError::UnsupportedGame);
        },
    };
    let p = match parse_platform(platform) {
        Some(p) => p,
        None => {
            return Err(ValidationError::UnsupportedPlatform);
        },
    };
    if is_forbidden_pair(g, p) {
        return Err(ValidationError::IncompatibleGamePlatform);
    }
    let textures: String = if matches!(p, Platform::Wii) {
        String::from_str("textures")
    } else {
        String::new()
    };
    let scripts: String = if matches!(g, Game::Emr) && matches!(p, Platform::Pc) {
        String::from_str("scripts")
    } else {
        String::new()
    };
    let info = ModInfo {
        name: String::from_str("Auto Generated Mod"),
        game: game_canonical(g),
        platform: platform_canonical(p),
        description: String::new(),
        shortdescription: String::from_str("Generated with eml-validate"),
        dependencies: Vec::new(),
        custom_textures_path: textures,
        custom_game_files_path: String::from_str("games"),
        scripts_path: scripts,
        icon_path: String::from_str("icon.png"),
        auto_generated_tags: Vec::new(),
    };
    let mut dirs: Vec<String> = Vec::new();
    if info.scripts_path.as_str().unicode_len() > 0 {
        dirs.push(String::from_str("scripts"));
    }
    dirs.push(String::from_str("games"));
    if info.custom_textures_path.as_str().unicode_len() > 0 {
        dirs.push(String::from_str("textures"));
    }
    proof {
        assert(info@ =~= spec_default_info(g, p));
        assert(dirs.deep_view() =~= spec_plan_dirs(g, p));
    }
    Ok(ProjectPlan { info, dirs })
}

} // verus!

//! The manifest records: the raw record the loader extracts from `mod.json`,
//! and the enriched record the pipeline hands back on success.

use vstd::prelude::*;

verus! {

/// The fields of `mod.json` as the loader extracts them: required fields as
/// plain strings, optional ones absent or present, with no semantic checks.
#[derive(Debug)]
pub struct RawManifest {
    pub name: String,
    pub game: String,
    pub platform: String,
    pub shortdescription: Option<String>,
    pub description: Option<String>,
    pub dependencies: Option<Vec<String>>,
    pub custom_textures_path: Option<String>,
    pub custom_game_files_path: Option<String>,
    pub scripts_path: Option<String>,
    pub icon_path: String,
}

/// Mathematical image of a [`RawManifest`].
#[verifier::ext_equal]
pub ghost struct RawManifestV {
    pub name: Seq<char>,
    pub game: Seq<char>,
    pub platform: Seq<char>,
    pub shortdescription: Option<Seq<char>>,
    pub description: Option<Seq<char>>,
    pub dependencies: Option<Seq<Seq<char>>>,
    pub custom_textures_path: Option<Seq<char>>,
    pub custom_game_files_path: Option<Seq<char>>,
    pub scripts_path: Option<Seq<char>>,
    pub icon_path: Seq<char>,
}

impl View for RawManifest {
    type V = RawManifestV;

    open spec fn view(&self) -> RawManifestV {
        RawManifestV {
            name: self.name@,
            game: self.game@,
            platform: self.platform@,
            shortdescription: self.shortdescription.deep_view(),
            description: self.description.deep_view(),
            dependencies: self.dependencies.deep_view(),
            custom_textures_path: self.custom_textures_path.deep_view(),
            custom_game_files_path: self.custom_game_files_path.deep_view(),
            scripts_path: self.scripts_path.deep_view(),
            icon_path: self.icon_path@,
        }
    }
}

/// The enriched package record the pipeline returns on success: the manifest
/// fields with `game` and `platform` in canonical case, the resolved
/// descriptions, absent paths as empty strings, and the derived capability
/// tags.
#[derive(Clone, PartialEq, Eq, Debug)]
pub struct ModInfo {
    pub name: String,
    pub game: String,
    pub platform: String,
    pub description: String,
    pub shortdescription: String,
    pub dependencies: Vec<String>,
    pub custom_textures_path: String,
    pub custom_game_files_path: String,
    pub scripts_path: String,
    pub icon_path: String,
    pub auto_generated_tags: Vec<String>,
}

/// Mathematical image of a [`ModInfo`].
#[verifier::ext_equal]
pub ghost struct ModInfoV {
    pub name: Seq<char>,
    pub game: Seq<char>,
    pub platform: Seq<char>,
    pub description: Seq<char>,
    pub shortdescription: Seq<char>,
    pub dependencies: Seq<Seq<char>>,
    pub custom_textures_path: Seq<char>,
    pub custom_game_files_path: Seq<char>,
    pub scripts_path: Seq<char>,
    pub icon_path: Seq<char>,
    pub auto_generated_tags: Seq<Seq<char>>,
}

impl View for ModInfo {
    type V = ModInfoV;

    open spec fn view(&self) -> ModInfoV {
        ModInfoV {
            name: self.name@,
            game: self.game@,
            platform: self.platform@,
            description: self.description@,
            shortdescription: self.shortdescription@,
            dependencies: self.dependencies.deep_view(),
            custom_textures_path: self.custom_textures_path@,
            custom_game_files_path: self.custom_game_files_path@,
            scripts_path: self.scripts_path@,
            icon_path: self.icon_path@,
            auto_generated_tags: self.auto_generated_tags.deep_view(),
        }
    }
}

} // verus!

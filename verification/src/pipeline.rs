//! The validation pipeline: an ordered chain of checks over the raw manifest
//! record, the description text and the filesystem answers. The first failing
//! check decides the error; when every check passes, the enriched record
//! comes back with its derived capability tags.

use vstd::prelude::*;
use crate::error::{ErrorV, PathField, ValidationError};
use crate::fsio::{join_path, path_exists, walk_new, walk_next};
use crate::json::{load_manifest, spec_load};
use crate::manifest::{ModInfo, ModInfoV, RawManifest, RawManifestV};
use crate::rules::{
    are_textures_allowed, banned_extensions, extension_verdict, ext_verdict, forbidden_pair,
    game_canonical, game_name, gamefile_tag, gamefile_tag_string, is_absolute_path,
    is_absolute_spec, is_forbidden_pair, is_scripting_allowed, match_game, match_platform,
    parse_game, parse_platform, platform_canonical, platform_name, script_tag, script_tag_string,
    scripting_allowed, short_description_sentinel, short_description_sentinel_string, texture_tag,
    texture_tag_string, textures_allowed, Game, Platform,
};
use crate::text::{
    all_alphanumeric, check_all_alphanumeric, is_blank, is_blank_spec, trim, trim_spec,
};

verus! {

/// The filesystem's answers to the existence questions the pipeline asks: one
/// per optional capability path, and one for the icon. Each is consulted only
/// when its field is set, non-blank and relative.
#[derive(Clone, Copy, PartialEq, Eq, Structural, Debug)]
pub struct PathFacts {
    pub game_files_exists: bool,
    pub textures_exists: bool,
    pub scripts_exists: bool,
    pub icon_exists: bool,
}

/// The check every set capability path must pass: non-blank, relative, and
/// present on disk; an absent field raises nothing.
pub open spec fn spec_path_check(field: Option<Seq<char>>, exist: bool, which: PathField) -> Option<
    ErrorV,
> {
    match field {
        None => None,
        Some(s) => if is_blank_spec(s) {
            Some(ErrorV::EmptyPath(which))
        } else if is_absolute_spec(s) {
            Some(ErrorV::AbsolutePathNotAllowed(which))
        } else if !exist {
            Some(ErrorV::PathNotFound(which))
        } else {
            None
        },
    }
}

/// A dependency name consists of alphanumeric characters alone, after
/// trimming.
pub open spec fn dep_name_ok(s: Seq<char>) -> bool {
    all_alphanumeric(trim_spec(s))
}

/// Every dependency name passes [`dep_name_ok`].
pub open spec fn spec_deps_ok(deps: Option<Seq<Seq<char>>>) -> bool {
    match deps {
        None => true,
        Some(ds) => forall|i: int| 0 <= i < ds.len() ==> #[trigger] dep_name_ok(ds[i]),
    }
}

/// An optional field, or the empty text when absent.
pub open spec fn opt_or_empty(o: Option<Seq<char>>) -> Seq<char> {
    match o {
        Some(s) => s,
        None => Seq::empty(),
    }
}

/// The derived capability tags, one per set capability path, in a fixed
/// order.
pub open spec fn spec_tags(m: RawManifestV) -> Seq<Seq<char>> {
    (if m.custom_game_files_path is Some {
        seq![gamefile_tag()]
    } else {
        Seq::<Seq<char>>::empty()
    }) + (if m.custom_textures_path is Some {
        seq![texture_tag()]
    } else {
        Seq::<Seq<char>>::empty()
    }) + (if m.scripts_path is Some {
        seq![script_tag()]
    } else {
        Seq::<Seq<char>>::empty()
    })
}

/// The enriched record of a package every check passed: canonical game and
/// platform case, resolved descriptions, trimmed icon path, absent paths as
/// empty text, and the derived tags.
pub open spec fn spec_enrich(
    m: RawManifestV,
    desc: Option<Seq<char>>,
    g: Game,
    p: Platform,
) -> ModInfoV {
    ModInfoV {
        name: m.name,
        game: game_name(g),
        platform: platform_name(p),
        description: match desc {
            Some(d) => trim_spec(d),
            None => opt_or_empty(m.description),
        },
        shortdescription: match m.shortdescription {
            Some(s) => trim_spec(s),
            None => if desc is Some {
                short_description_sentinel()
            } else {
                Seq::empty()
            },
        },
        dependencies: match m.dependencies {
            Some(d) => d,
            None => Seq::empty(),
        },
        custom_textures_path: opt_or_empty(m.custom_textures_path),
        custom_game_files_path: opt_or_empty(m.custom_game_files_path),
        scripts_path: opt_or_empty(m.scripts_path),
        icon_path: trim_spec(m.icon_path),
        auto_generated_tags: spec_tags(m),
    }
}

/// What validation decides, as a function of the raw record, the description
/// file's text and the filesystem's answers: the checks run in their fixed
/// order and the first failure names the error.
pub open spec fn spec_validate(m: RawManifestV, desc: Option<Seq<char>>, f: PathFacts) -> Result<
    ModInfoV,
    ErrorV,
> {
    if is_blank_spec(m.name) {
        Err(ErrorV::EmptyName)
    } else if desc matches Some(d) && is_blank_spec(d) {
        Err(ErrorV::EmptyDescription)
    } else if match_game(m.game) is None {
        Err(ErrorV::UnsupportedGame)
    } else if match_platform(m.platform) is None {
        Err(ErrorV::UnsupportedPlatform)
    } else {
        let g = match_game(m.game)->0;
        let p = match_platform(m.platform)->0;
        if forbidden_pair(g, p) {
            Err(ErrorV::IncompatibleGamePlatform)
        } else if m.custom_textures_path is Some && !textures_allowed(p) {
            Err(ErrorV::CapabilityNotAllowed(PathField::Textures))
        } else if m.scripts_path is Some && !scripting_allowed(g, p) {
            Err(ErrorV::CapabilityNotAllowed(PathField::Scripts))
        } else if spec_path_check(
            m.custom_game_files_path,
            f.game_files_exists,
            PathField::GameFiles,
        ) is Some {
            Err(spec_path_check(m.custom_game_files_path, f.game_files_exists, PathField::GameFiles)->0)
        } else if spec_path_check(m.custom_textures_path, f.textures_exists, PathField::Textures) is Some {
            Err(spec_path_check(m.custom_textures_path, f.textures_exists, PathField::Textures)->0)
        } else if spec_path_check(m.scripts_path, f.scripts_exists, PathField::Scripts) is Some {
            Err(spec_path_check(m.scripts_path, f.scripts_exists, PathField::Scripts)->0)
        } else if is_blank_spec(m.icon_path) {
            Err(ErrorV::EmptyPath(PathField::Icon))
        } else if is_absolute_spec(m.icon_path) {
            Err(ErrorV::AbsolutePathNotAllowed(PathField::Icon))
        } else if !f.icon_exists {
            Err(ErrorV::PathNotFound(PathField::Icon))
        } else if !spec_deps_ok(m.dependencies) {
            Err(ErrorV::InvalidDependencyName)
        } else {
            Ok(spec_enrich(m, desc, g, p))
        }
    }
}

/// One dependency with a character that is not alphanumeric refutes the whole
/// list.
proof fn lemma_dep_bad(ds: Seq<Seq<char>>, i: int)
    requires
        0 <= i < ds.len(),
        !dep_name_ok(ds[i]),
    ensures
        !spec_deps_ok(Some(ds)),
{
    if spec_deps_ok(Some(ds)) {
        let dsx = Some(ds)->0;
        assert(dsx =~= ds);
        assert(dep_name_ok(dsx[i]));
    }
}

/// Run [`spec_path_check`] on a field.
fn check_path_field(field: &Option<String>, exist: bool, which: PathField) -> (r: Option<
    ValidationError,
>)
    ensures
        match r {
            Some(e) => spec_path_check(field.deep_view(), exist, which) == Some(e@),
            None => spec_path_check(field.deep_view(), exist, which) is None,
        },
{
    match field {
        None => None,
        Some(s) => {
            if is_blank(s.as_str()) {
                Some(ValidationError::EmptyPath(which))
            } else if is_absolute_path(s.as_str()) {
                Some(ValidationError::AbsolutePathNotAllowed(which))
            } else if !exist {
                Some(ValidationError::PathNotFound(which))
            } else {
                None
            }
        },
    }
}

/// A copy of the strings, element for element.
fn clone_strings(v: &Vec<String>) -> (r: Vec<String>)
    ensures
        r.deep_view() == v.deep_view(),
{
    let mut out: Vec<String> = Vec::new();
    let mut i: usize = 0;
    while i < v.len()
        invariant
            0 <= i <= v.len(),
            out.deep_view() =~= v.deep_view().subrange(0, i as int),
        decreases v.len() - i,
    {
        let ghost pre = out.deep_view();
        out.push(v[i].clone());
        proof {
            assert(out.deep_view() =~= pre.push(v.deep_view()[i as int]));
            assert(pre.push(v.deep_view()[i as int]) =~= v.deep_view().subrange(0, i as int + 1));
        }
        i = i + 1;
    }
    proof {
        assert(out.deep_view() =~= v.deep_view().subrange(0, v.len() as int));
        assert(v.deep_view().subrange(0, v.len() as int) =~= v.deep_view());
    }
    out
}

/// The field's text, or the empty string when the field is absent.
fn opt_string_or_empty(o: &Option<String>) -> (r: String)
    ensures
        r@ == opt_or_empty(o.deep_view()),
{
    match o {
        Some(s) => s.clone(),
        None => String::new(),
    }
}

/// Run the whole chain of semantic checks on a loaded record, exactly as
/// [`spec_validate`] states: the first failing check decides the error, and
/// on success the enriched record comes back.
#[verifier::loop_isolation(false)]
pub fn validate_record(raw: &RawManifest, desc: Option<&str>, f: &PathFacts) -> (r: Result<
    ModInfo,
    ValidationError,
>)
    ensures
        match r {
            Ok(info) => spec_validate(raw@, desc.deep_view(), *f) == Ok::<ModInfoV, ErrorV>(info@),
            Err(e) => spec_validate(raw@, desc.deep_view(), *f) == Err::<ModInfoV, ErrorV>(e@),
        },
{
    if is_blank(raw.name.as_str()) {
        return Err(ValidationError::EmptyName);
    }
    match desc {
        Some(d) => {
            if is_blank(d) {
                return Err(ValidationError::EmptyDescription);
            }
        },
        None => {},
    }
    let g = match parse_game(raw.game.as_str()) {
        Some(g) => g,
        None => {
            return Err(ValidationError::UnsupportedGame);
        },
    };
    let p = match parse_platform(raw.platform.as_str()) {
        Some(p) => p,
        None => {
            return Err(ValidationError::UnsupportedPlatform);
        },
    };
    if is_forbidden_pair(g, p) {
        return Err(ValidationError::IncompatibleGamePlatform);
    }
    if matches!(&raw.custom_textures_path, Some(_)) && !are_textures_allowed(p) {
        return Err(ValidationError::CapabilityNotAllowed(PathField::Textures));
    }
    if matches!(&raw.scripts_path, Some(_)) && !is_scripting_allowed(g, p) {
        return Err(ValidationError::CapabilityNotAllowed(PathField::Scripts));
    }
    match check_path_field(&raw.custom_game_files_path, f.game_files_exists, PathField::GameFiles) {
        Some(e) => {
            return Err(e);
        },
        None => {},
    }
    match check_path_field(&raw.custom_textures_path, f.textures_exists, PathField::Textures) {
        Some(e) => {
            return Err(e);
        },
        None => {},
    }
    match check_path_field(&raw.scripts_path, f.scripts_exists, PathField::Scripts) {
        Some(e) => {
            return Err(e);
        },
        None => {},
    }
    if is_blank(raw.icon_path.as_str()) {
        return Err(ValidationError::EmptyPath(PathField::Icon));
    }
    if is_absolute_path(raw.icon_path.as_str()) {
        return Err(ValidationError::AbsolutePathNotAllowed(PathField::Icon));
    }
    if !f.icon_exists {
        return Err(ValidationError::PathNotFound(PathField::Icon));
    }
    let dependencies: Vec<String> = match &raw.dependencies {
        Some(deps) => {
            let mut i: usize = 0;
            while i < deps.len()
                invariant
                    0 <= i <= deps.len(),
                    raw@.dependencies == Some(deps.deep_view()),
                    forall|j: int| 0 <= j < i ==> #[trigger] dep_name_ok(deps.deep_view()[j]),
                decreases deps.len() - i,
            {
                let t = trim(deps[i].as_str());
                proof {
                    assert(deps.deep_view()[i as int] == deps[i as int]@);
                }
                if !check_all_alphanumeric(t) {
                    proof {
                        assert(raw@.dependencies == Some(deps.deep_view()));
                        assert(!dep_name_ok(deps.deep_view()[i as int]));
                        lemma_dep_bad(deps.deep_view(), i as int);
                    }
                    return Err(ValidationError::InvalidDependencyName);
                }
                proof {
                    assert(dep_name_ok(deps.deep_view()[i as int]));
                }
                i = i + 1;
            }
            proof {
                assert(spec_deps_ok(raw@.dependencies));
            }
            clone_strings(deps)
        },
        None => Vec::new(),
    };
    let description: String = match desc {
        Some(d) => trim(d).to_owned(),
        None => opt_string_or_empty(&raw.description),
    };
    let shortdescription: String = match &raw.shortdescription {
        Some(s) => trim(s.as_str()).to_owned(),
        None => if matches!(desc, Some(_)) {
            short_description_sentinel_string()
        } else {
            String::new()
        },
    };
    let mut tags: Vec<String> = Vec::new();
    if matches!(&raw.custom_game_files_path, Some(_)) {
        tags.push(gamefile_tag_string());
    }
    if matches!(&raw.custom_textures_path, Some(_)) {
        tags.push(texture_tag_string());
    }
    if matches!(&raw.scripts_path, Some(_)) {
        tags.push(script_tag_string());
    }
    proof {
        assert(tags.deep_view() =~= spec_tags(raw@));
    }
    let info = ModInfo {
        name: raw.name.clone(),
        game: game_canonical(g),
        platform: platform_canonical(p),
        description,
        shortdescription,
        dependencies,
        custom_textures_path: opt_string_or_empty(&raw.custom_textures_path),
        custom_game_files_path: opt_string_or_empty(&raw.custom_game_files_path),
        scripts_path: opt_string_or_empty(&raw.scripts_path),
        icon_path: trim(raw.icon_path.as_str()).to_owned(),
        auto_generated_tags: tags,
    };
    proof {
        assert(info@ =~= spec_enrich(raw@, desc.deep_view(), g, p));
    }
    Ok(info)
}

/// Whether a path field's target exists under the root. The disk is asked
/// only for a non-blank, relative field; a blank or absolute one is answered
/// `false` without a query.
fn probe_str(root: &str, rel: &str) -> (r: bool)
    ensures
        is_blank_spec(rel@) || is_absolute_spec(rel@) ==> r == false,
{
    if is_blank(rel) {
        false
    } else if is_absolute_path(rel) {
        false
    } else {
        let joined = join_path(root, rel);
        path_exists(joined.as_str())
    }
}

/// [`probe_str`] over an optional field; an absent field is answered `false`.
fn probe_field(root: &str, field: &Option<String>) -> (r: bool)
    ensures
        field is None ==> r == false,
        field matches Some(s) && (is_blank_spec(s@) || is_absolute_spec(s@)) ==> r == false,
{
    match field {
        None => false,
        Some(s) => probe_str(root, s.as_str()),
    }
}

/// Ask the disk the existence questions the pipeline consults.
pub fn gather_path_facts(root: &str, raw: &RawManifest) -> (f: PathFacts) {
    PathFacts {
        game_files_exists: probe_field(root, &raw.custom_game_files_path),
        textures_exists: probe_field(root, &raw.custom_textures_path),
        scripts_exists: probe_field(root, &raw.scripts_path),
        icon_exists: probe_str(root, raw.icon_path.as_str()),
    }
}

/// A banned verdict names a table entry.
proof fn lemma_ext_verdict_banned(e: Seq<char>)
    requires
        ext_verdict(e) is Some,
    ensures
        banned_extensions().contains(ext_verdict(e)->0),
{
    let x = ext_verdict(e)->0;
    if x =~= banned_extensions()[0] {
        assert(banned_extensions()[0] == x);
    } else if x =~= banned_extensions()[1] {
        assert(banned_extensions()[1] == x);
    } else if x =~= banned_extensions()[2] {
        assert(banned_extensions()[2] == x);
    } else if x =~= banned_extensions()[3] {
        assert(banned_extensions()[3] == x);
    } else if x =~= banned_extensions()[4] {
        assert(banned_extensions()[4] == x);
    } else {
        assert(banned_extensions()[5] == x);
    }
}

/// Walk every entry under the root and report the first file whose extension
/// the banned table matches, per [`ext_verdict`]; the reported extension is
/// in lower case. A traversal fault surfaces as the I/O error. What the walk
/// yields depends on the disk, so success promises only that the scan ran to
/// the end without a match.
pub fn scan_for_banned(root: &str) -> (r: Result<(), ValidationError>)
    ensures
        match r {
            Ok(u) => true,
            Err(e) => match e@ {
                ErrorV::BannedFileExtension(x) => banned_extensions().contains(x),
                ErrorV::Io(m) => true,
                _ => false,
            },
        },
{
    let mut it = walk_new(root);
    loop
        decreases crate::fsio::walk_fuel(it),
    {
        match walk_next(&mut it) {
            None => {
                return Ok(());
            },
            Some(Err(msg)) => {
                return Err(ValidationError::Io(msg));
            },
            Some(Ok((is_dir, ext))) => {
                if !is_dir {
                    match extension_verdict(ext.as_str()) {
                        Some(b) => {
                            proof {
                                lemma_ext_verdict_banned(ext@);
                            }
                            return Err(ValidationError::BannedFileExtension(b));
                        },
                        None => {},
                    }
                }
            },
        }
    }
}

/// A valid manifest for a supported, compatible pair with no optional field
/// set is accepted, and its derived tag list is empty: tags come only from
/// capability paths.
pub proof fn lemma_minimal_manifest_accepted(m: RawManifestV, f: PathFacts)
    requires
        !is_blank_spec(m.name),
        match_game(m.game) is Some,
        match_platform(m.platform) is Some,
        !forbidden_pair(match_game(m.game)->0, match_platform(m.platform)->0),
        m.shortdescription is None,
        m.description is None,
        m.dependencies is None,
        m.custom_textures_path is None,
        m.custom_game_files_path is None,
        m.scripts_path is None,
        !is_blank_spec(m.icon_path),
        !is_absolute_spec(m.icon_path),
        f.icon_exists,
    ensures
        spec_validate(m, None, f) matches Ok(info) && info.auto_generated_tags
            =~= Seq::<Seq<char>>::empty(),
{
}

/// A manifest naming a forbidden game/platform pair is rejected as
/// incompatible once the checks before the matrix pass — and the matching is
/// blind to ASCII letter case, so every spelling of the pair is rejected
/// alike.
pub proof fn lemma_forbidden_pair_rejected(
    m: RawManifestV,
    desc: Option<Seq<char>>,
    f: PathFacts,
)
    requires
        !is_blank_spec(m.name),
        desc matches Some(d) ==> !is_blank_spec(d),
        match_game(m.game) is Some,
        match_platform(m.platform) is Some,
        forbidden_pair(match_game(m.game)->0, match_platform(m.platform)->0),
    ensures
        spec_validate(m, desc, f) == Err::<ModInfoV, ErrorV>(ErrorV::IncompatibleGamePlatform),
{
}

/// Respelling the game and platform identifiers in another ASCII letter case
/// changes nothing of what validation decides about them.
pub proof fn lemma_identifier_case_blind(m1: RawManifestV, m2: RawManifestV)
    requires
        crate::text::seq_eq_ci(m1.game, m2.game),
        crate::text::seq_eq_ci(m1.platform, m2.platform),
    ensures
        match_game(m1.game) == match_game(m2.game),
        match_platform(m1.platform) == match_platform(m2.platform),
{
    crate::text::lemma_eq_ci_trans(m1.game, m2.game, game_name(Game::Em1));
    crate::text::lemma_eq_ci_trans(m1.game, m2.game, game_name(Game::Em2));
    crate::text::lemma_eq_ci_trans(m1.game, m2.game, game_name(Game::Emr));
    crate::text::lemma_eq_ci_trans(m1.platform, m2.platform, platform_name(Platform::Wii));
    crate::text::lemma_eq_ci_trans(m1.platform, m2.platform, platform_name(Platform::Pc));
}

/// A dependency list with a character that is not alphanumeric in some entry,
/// after trimming, is rejected as an invalid dependency name once every
/// earlier check passes.
pub proof fn lemma_bad_dependency_rejected(
    m: RawManifestV,
    desc: Option<Seq<char>>,
    f: PathFacts,
    i: int,
)
    requires
        !is_blank_spec(m.name),
        desc matches Some(d) ==> !is_blank_spec(d),
        match_game(m.game) is Some,
        match_platform(m.platform) is Some,
        !forbidden_pair(match_game(m.game)->0, match_platform(m.platform)->0),
        m.custom_textures_path is Some ==> textures_allowed(match_platform(m.platform)->0),
        m.scripts_path is Some ==> scripting_allowed(
            match_game(m.game)->0,
            match_platform(m.platform)->0,
        ),
        spec_path_check(m.custom_game_files_path, f.game_files_exists, PathField::GameFiles) is None,
        spec_path_check(m.custom_textures_path, f.textures_exists, PathField::Textures) is None,
        spec_path_check(m.scripts_path, f.scripts_exists, PathField::Scripts) is None,
        !is_blank_spec(m.icon_path),
        !is_absolute_spec(m.icon_path),
        f.icon_exists,
        m.dependencies matches Some(ds) && 0 <= i < ds.len() && !dep_name_ok(ds[i]),
    ensures
        spec_validate(m, desc, f) == Err::<ModInfoV, ErrorV>(ErrorV::InvalidDependencyName),
{
    lemma_dep_bad(m.dependencies->0, i);
}

/// Validation is a pure function of the manifest record, the description text
/// and the filesystem's answers: run twice over an unmodified package — equal
/// record, equal description, equal answers — it decides the same.
pub proof fn lemma_validation_deterministic(
    m1: RawManifestV,
    m2: RawManifestV,
    d1: Option<Seq<char>>,
    d2: Option<Seq<char>>,
    f1: PathFacts,
    f2: PathFacts,
)
    requires
        m1 == m2,
        d1 == d2,
        f1 == f2,
    ensures
        spec_validate(m1, d1, f1) == spec_validate(m2, d2, f2),
{
}

/// Validate a package: load the manifest from its text (absent text means the
/// manifest file is missing), run the semantic checks against the disk's
/// answers, and scan the tree for banned extensions last, so that every
/// cheaper check fails first.
///
/// The loaded record is fixed by the text through [`spec_load`]; from there
/// every outcome must be one the pure pipeline [`spec_validate`] decides for
/// that record under some filesystem answers. Only the genuinely disk-decided
/// residue stays behind the quantifier: which paths exist, and what the walk
/// found — a banned report or an I/O fault may come only once the record's
/// own checks could pass.
pub fn validate_package(root: &str, manifest_text: Option<&str>, description_text: Option<&str>) -> (r:
    Result<ModInfo, ValidationError>)
    ensures
        match manifest_text {
            None => r == Err::<ModInfo, ValidationError>(ValidationError::ManifestMissing),
            Some(t) => match r {
                Ok(info) => spec_load(t@) matches Ok(rawv) && exists|f: PathFacts|
                    spec_validate(rawv, description_text.deep_view(), f) == Ok::<ModInfoV, ErrorV>(
                        info@,
                    ),
                Err(e) => match spec_load(t@) {
                    Err(le) => e@ == le,
                    Ok(rawv) => {
                        ||| exists|f: PathFacts|
                            spec_validate(rawv, description_text.deep_view(), f) == Err::<
                                ModInfoV,
                                ErrorV,
                            >(e@)
                        ||| (e@ matches ErrorV::BannedFileExtension(x)
                            && banned_extensions().contains(x) && exists|f: PathFacts|
                            spec_validate(rawv, description_text.deep_view(), f) is Ok)
                        ||| (e@ matches ErrorV::Io(m) && exists|f: PathFacts|
                            spec_validate(rawv, description_text.deep_view(), f) is Ok)
                    },
                },
            },
        },
{
    let text = match manifest_text {
        None => {
            return Err(ValidationError::ManifestMissing);
        },
        Some(t) => t,
    };
    let raw = match load_manifest(text) {
        Ok(raw) => raw,
        Err(e) => {
            return Err(e);
        },
    };
    let facts = gather_path_facts(root, &raw);
    let info = match validate_record(&raw, description_text, &facts) {
        Ok(i) => i,
        Err(e) => {
            proof {
                assert(spec_validate(raw@, description_text.deep_view(), facts) == Err::<
                    ModInfoV,
                    ErrorV,
                >(e@));
            }
            return Err(e);
        },
    };
    proof {
        assert(spec_validate(raw@, description_text.deep_view(), facts) == Ok::<ModInfoV, ErrorV>(
            info@,
        ));
    }
    match scan_for_banned(root) {
        Ok(u) => Ok(info),
        Err(e) => Err(e),
    }
}

} // verus!

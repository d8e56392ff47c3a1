//! The configuration the validator runs against: the supported game and
//! platform identifiers, the compatibility matrix, the capability gating, the
//! derived tag names and the banned file extensions.

use vstd::prelude::*;
use crate::text::{seq_eq_ci, str_eq_ci};
use vstd::string::{StringExecFns, StrSliceExecFns};

verus! {

/// The supported games.
#[derive(Clone, Copy, PartialEq, Eq, Structural, Debug)]
pub enum Game {
    Em1,
    Em2,
    Emr,
}

/// The supported platforms: the console and the desktop build.
#[derive(Clone, Copy, PartialEq, Eq, Structural, Debug)]
pub enum Platform {
    Wii,
    Pc,
}

/// Canonical (stored) spelling of a game identifier.
pub open spec fn game_name(g: Game) -> Seq<char> {
    match g {
        Game::Em1 => seq!['E', 'M', '1'],
        Game::Em2 => seq!['E', 'M', '2'],
        Game::Emr => seq!['E', 'M', 'R'],
    }
}

/// Canonical (stored) spelling of a platform identifier.
pub open spec fn platform_name(p: Platform) -> Seq<char> {
    match p {
        Platform::Wii => seq!['w', 'i', 'i'],
        Platform::Pc => seq!['p', 'c'],
    }
}

/// Which supported game the text names, matched without regard to ASCII case.
pub open spec fn match_game(s: Seq<char>) -> Option<Game> {
    if seq_eq_ci(s, game_name(Game::Em1)) {
        Some(Game::Em1)
    } else if seq_eq_ci(s, game_name(Game::Em2)) {
        Some(Game::Em2)
    } else if seq_eq_ci(s, game_name(Game::Emr)) {
        Some(Game::Emr)
    } else {
        None
    }
}

/// Which supported platform the text names, matched without regard to ASCII
/// case.
pub open spec fn match_platform(s: Seq<char>) -> Option<Platform> {
    if seq_eq_ci(s, platform_name(Platform::Wii)) {
        Some(Platform::Wii)
    } else if seq_eq_ci(s, platform_name(Platform::Pc)) {
        Some(Platform::Pc)
    } else {
        None
    }
}

/// Recognize a game identifier, per [`match_game`].
pub fn parse_game(s: &str) -> (r: Option<Game>)
    ensures
        r == match_game(s@),
{
    proof {
        reveal_strlit("EM1");
        reveal_strlit("EM2");
        reveal_strlit("EMR");
        assert("EM1"@ =~= game_name(Game::Em1));
        assert("EM2"@ =~= game_name(Game::Em2));
        assert("EMR"@ =~= game_name(Game::Emr));
    }
    if str_eq_ci(s, "EM1") {
        Some(Game::Em1)
    } else if str_eq_ci(s, "EM2") {
        Some(Game::Em2)
    } else if str_eq_ci(s, "EMR") {
        Some(Game::Emr)
    } else {
        None
    }
}

/// Recognize a platform identifier, per [`match_platform`].
pub fn parse_platform(s: &str) -> (r: Option<Platform>)
    ensures
        r == match_platform(s@),
{
    proof {
        reveal_strlit("wii");
        reveal_strlit("pc");
        assert("wii"@ =~= platform_name(Platform::Wii));
        assert("pc"@ =~= platform_name(Platform::Pc));
    }
    if str_eq_ci(s, "wii") {
        Some(Platform::Wii)
    } else if str_eq_ci(s, "pc") {
        Some(Platform::Pc)
    } else {
        None
    }
}

/// The canonical spelling of a game, as an owned string.
pub fn game_canonical(g: Game) -> (r: String)
    ensures
        r@ == game_name(g),
{
    proof {
        reveal_strlit("EM1");
        reveal_strlit("EM2");
        reveal_strlit("EMR");
    }
    let r = match g {
        Game::Em1 => String::from_str("EM1"),
        Game::Em2 => String::from_str("EM2"),
        Game::Emr => String::from_str("EMR"),
    };
    proof {
        assert(r@ =~= game_name(g));
    }
    r
}

/// The canonical spelling of a platform, as an owned string.
pub fn platform_canonical(p: Platform) -> (r: String)
    ensures
        r@ == platform_name(p),
{
    proof {
        reveal_strlit("wii");
        reveal_strlit("pc");
    }
    let r = match p {
        Platform::Wii => String::from_str("wii"),
        Platform::Pc => String::from_str("pc"),
    };
    proof {
        assert(r@ =~= platform_name(p));
    }
    r
}

/// The compatibility matrix: the remake never ships on the console, and the
/// first title never ships on the desktop.
pub open spec fn forbidden_pair(g: Game, p: Platform) -> bool {
    (g == Game::Emr && p == Platform::Wii) || (g == Game::Em1 && p == Platform::Pc)
}

/// Executable test for [`forbidden_pair`].
pub fn is_forbidden_pair(g: Game, p: Platform) -> (r: bool)
    ensures
        r == forbidden_pair(g, p),
{
    (matches!(g, Game::Emr) && matches!(p, Platform::Wii)) || (matches!(g, Game::Em1) && matches!(
        p,
        Platform::Pc,
    ))
}

/// Custom textures ship only on the console; the desktop build bakes its
/// textures in.
pub open spec fn textures_allowed(p: Platform) -> bool {
    p == Platform::Wii
}

/// Executable test for [`textures_allowed`].
pub fn are_textures_allowed(p: Platform) -> (r: bool)
    ensures
        r == textures_allowed(p),
{
    matches!(p, Platform::Wii)
}

/// Scripting is supported only by the remake on the desktop.
pub open spec fn scripting_allowed(g: Game, p: Platform) -> bool {
    g == Game::Emr && p == Platform::Pc
}

/// Executable test for [`scripting_allowed`].
pub fn is_scripting_allowed(g: Game, p: Platform) -> (r: bool)
    ensures
        r == scripting_allowed(g, p),
{
    matches!(g, Game::Emr) && matches!(p, Platform::Pc)
}

/// The capability tag recorded for a package that ships custom textures.
pub open spec fn texture_tag() -> Seq<char> {
    seq!['t', 'e', 'x', 't', 'u', 'r', 'e', '-', 'm', 'o', 'd']
}

/// The capability tag recorded for a package that replaces game files.
pub open spec fn gamefile_tag() -> Seq<char> {
    seq!['g', 'a', 'm', 'e', 'f', 'i', 'l', 'e', '-', 'm', 'o', 'd']
}

/// The capability tag recorded for a package that ships scripts.
pub open spec fn script_tag() -> Seq<char> {
    seq!['s', 'c', 'r', 'i', 'p', 't', '-', 'm', 'o', 'd']
}

/// The texture tag as an owned string.
pub fn texture_tag_string() -> (r: String)
    ensures
        r@ == texture_tag(),
{
    proof {
        reveal_strlit("texture-mod");
    }
    let r = String::from_str("texture-mod");
    proof {
        assert(r@ =~= texture_tag());
    }
    r
}

/// The game-file tag as an owned string.
pub fn gamefile_tag_string() -> (r: String)
    ensures
        r@ == gamefile_tag(),
{
    proof {
        reveal_strlit("gamefile-mod");
    }
    let r = String::from_str("gamefile-mod");
    proof {
        assert(r@ =~= gamefile_tag());
    }
    r
}

/// The script tag as an owned string.
pub fn script_tag_string() -> (r: String)
    ensures
        r@ == script_tag(),
{
    proof {
        reveal_strlit("script-mod");
    }
    let r = String::from_str("script-mod");
    proof {
        assert(r@ =~= script_tag());
    }
    r
}

/// The sentinel a missing short description is given when the long
/// description comes from the sibling file.
pub open spec fn short_description_sentinel() -> Seq<char> {
    seq!['c', 'l', 'o', 'n', 'e']
}

/// The sentinel as an owned string.
pub fn short_description_sentinel_string() -> (r: String)
    ensures
        r@ == short_description_sentinel(),
{
    proof {
        reveal_strlit("clone");
    }
    let r = String::from_str("clone");
    proof {
        assert(r@ =~= short_description_sentinel());
    }
    r
}

/// The file extensions that flag a package for review, in lower case.
pub open spec fn banned_extensions() -> Seq<Seq<char>> {
    seq![
        seq!['d', 'l', 'l'],
        seq!['s', 'o'],
        seq!['e', 'x', 'e'],
        seq!['s', 'h'],
        seq!['b', 'a', 't'],
        seq!['s', 'c', 'r'],
    ]
}

/// The lowercased form of the extension when it is banned, else nothing. The
/// match ignores ASCII case; the table is lower-case, so a match's lowercased
/// form is the table entry itself.
pub open spec fn ext_verdict(e: Seq<char>) -> Option<Seq<char>> {
    if seq_eq_ci(e, banned_extensions()[0]) {
        Some(banned_extensions()[0])
    } else if seq_eq_ci(e, banned_extensions()[1]) {
        Some(banned_extensions()[1])
    } else if seq_eq_ci(e, banned_extensions()[2]) {
        Some(banned_extensions()[2])
    } else if seq_eq_ci(e, banned_extensions()[3]) {
        Some(banned_extensions()[3])
    } else if seq_eq_ci(e, banned_extensions()[4]) {
        Some(banned_extensions()[4])
    } else if seq_eq_ci(e, banned_extensions()[5]) {
        Some(banned_extensions()[5])
    } else {
        None
    }
}

/// Executable form of [`ext_verdict`]: the banned table entry the extension
/// matches, if any.
pub fn extension_verdict(e: &str) -> (r: Option<String>)
    ensures
        match r {
            Some(s) => ext_verdict(e@) == Some(s@),
            None => ext_verdict(e@) is None,
        },
{
    proof {
        reveal_strlit("dll");
        reveal_strlit("so");
        reveal_strlit("exe");
        reveal_strlit("sh");
        reveal_strlit("bat");
        reveal_strlit("scr");
        assert("dll"@ =~= banned_extensions()[0]);
        assert("so"@ =~= banned_extensions()[1]);
        assert("exe"@ =~= banned_extensions()[2]);
        assert("sh"@ =~= banned_extensions()[3]);
        assert("bat"@ =~= banned_extensions()[4]);
        assert("scr"@ =~= banned_extensions()[5]);
    }
    if str_eq_ci(e, "dll") {
        Some(String::from_str("dll"))
    } else if str_eq_ci(e, "so") {
        Some(String::from_str("so"))
    } else if str_eq_ci(e, "exe") {
        Some(String::from_str("exe"))
    } else if str_eq_ci(e, "sh") {
        Some(String::from_str("sh"))
    } else if str_eq_ci(e, "bat") {
        Some(String::from_str("bat"))
    } else if str_eq_ci(e, "scr") {
        Some(String::from_str("scr"))
    } else {
        None
    }
}

/// A path counts as absolute when it starts at the filesystem root.
pub open spec fn is_absolute_spec(s: Seq<char>) -> bool {
    s.len() > 0 && s[0] == '/'
}

/// Executable test for [`is_absolute_spec`].
pub fn is_absolute_path(s: &str) -> (r: bool)
    ensures
        r == is_absolute_spec(s@),
{
    if s.unicode_len() == 0 {
        false
    } else {
        s.get_char(0) == '/'
    }
}

} // verus!

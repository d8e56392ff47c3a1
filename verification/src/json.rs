//! The manifest loader: `mod.json` text is parsed into a JSON object through
//! `serde_json`, and the recognized fields are extracted into a
//! [`RawManifest`], with no semantic checks. A required key that is absent or
//! mistyped, an optional key that is mistyped, and a text that is no JSON
//! object at all are all malformed.

use vstd::prelude::*;
use crate::error::{ErrorV, ValidationError};
use crate::manifest::{RawManifest, RawManifestV};

verus! {

#[verifier::external_type_specification]
#[verifier::external_body]
pub struct ExJsonValue(serde_json::Value);

#[verifier::external_type_specification]
#[verifier::external_body]
#[verifier::reject_recursive_types(K)]
#[verifier::reject_recursive_types(V)]
pub struct ExJsonMap<K, V>(serde_json::Map<K, V>);

/// Whether the text parses as a JSON object; a function of the text alone.
pub uninterp spec fn parses_as_object(s: Seq<char>) -> bool;

/// The string reading of a parsed object's entries: every present key maps to
/// its value's text when that value is a JSON string, else to nothing.
pub uninterp spec fn obj_strings(m: serde_json::Map<String, serde_json::Value>) -> Map<
    Seq<char>,
    Option<Seq<char>>,
>;

/// The array reading of a parsed object's entries: every present key maps to
/// its elements' texts when its value is an array of JSON strings, else to
/// nothing.
pub uninterp spec fn obj_string_arrays(m: serde_json::Map<String, serde_json::Value>) -> Map<
    Seq<char>,
    Option<Seq<Seq<char>>>,
>;

/// The string reading of the object the text parses into, keyed by the text
/// itself: parsing is a function of the text alone, so the entries of the
/// parsed object are too.
pub uninterp spec fn obj_strings_of(s: Seq<char>) -> Map<Seq<char>, Option<Seq<char>>>;

/// The array reading of the object the text parses into, keyed by the text.
pub uninterp spec fn obj_string_arrays_of(s: Seq<char>) -> Map<Seq<char>, Option<Seq<Seq<char>>>>;

/// Relies on `serde_json::from_str`: the text parses into a JSON object or
/// fails, as a function of the text alone; the parsed object's readings are
/// the text's.
#[verifier::external_body]
fn parse_json_object(s: &str) -> (r: Option<serde_json::Map<String, serde_json::Value>>)
    ensures
        r is Some <==> parses_as_object(s@),
        r matches Some(m) ==> obj_strings(m) == obj_strings_of(s@) && obj_string_arrays(m)
            == obj_string_arrays_of(s@),
{
    serde_json::from_str(s).ok()
}

/// Relies on `serde_json::Map::get` and `serde_json::Value::as_str`: the
/// entry under the key, read as a string. The outer `None` means the key is
/// absent; the inner `None` means its value is not a JSON string.
#[verifier::external_body]
fn get_string_entry(m: &serde_json::Map<String, serde_json::Value>, key: &str) -> (r: Option<
    Option<String>,
>)
    ensures
        r is Some <==> obj_strings(*m).dom().contains(key@),
        match r {
            Some(Some(s)) => obj_strings(*m)[key@] == Some(s@),
            Some(None) => obj_strings(*m)[key@] is None,
            None => true,
        },
{
    match m.get(key) {
        None => None,
        Some(v) => Some(v.as_str().map(|s| s.to_string())),
    }
}

/// Relies on `serde_json::Map::get`, `serde_json::Value::as_array` and
/// `serde_json::Value::as_str`: the entry under the key, read as an array of
/// strings. The outer `None` means the key is absent; the inner `None` means
/// its value is not an array of JSON strings.
#[verifier::external_body]
fn get_string_array_entry(m: &serde_json::Map<String, serde_json::Value>, key: &str) -> (r: Option<
    Option<Vec<String>>,
>)
    ensures
        r is Some <==> obj_string_arrays(*m).dom().contains(key@),
        match r {
            Some(Some(v)) => obj_string_arrays(*m)[key@] == Some(v.deep_view()),
            Some(None) => obj_string_arrays(*m)[key@] is None,
            None => true,
        },
{
    match m.get(key) {
        None => None,
        Some(v) => match v.as_array() {
            None => Some(None),
            Some(a) => Some(
                a.iter().map(|x| x.as_str().map(|s| s.to_string())).collect::<Option<Vec<String>>>(),
            ),
        },
    }
}

/// A required key read from the string entries: absent and mistyped both
/// yield nothing.
pub open spec fn req_field(strs: Map<Seq<char>, Option<Seq<char>>>, k: Seq<char>) -> Option<
    Seq<char>,
> {
    if strs.dom().contains(k) {
        strs[k]
    } else {
        None
    }
}

/// An optional string key is well-typed: absent, or present as a string.
pub open spec fn opt_field_ok(strs: Map<Seq<char>, Option<Seq<char>>>, k: Seq<char>) -> bool {
    strs.dom().contains(k) ==> strs[k] is Some
}

/// The value of an optional string key, when well-typed.
pub open spec fn opt_field(strs: Map<Seq<char>, Option<Seq<char>>>, k: Seq<char>) -> Option<
    Seq<char>,
> {
    if strs.dom().contains(k) {
        strs[k]
    } else {
        None
    }
}

/// What the loader extracts from a parsed object: the raw record, or the
/// malformed error when a required key is absent or not a string, an optional
/// string key is not a string, or the dependency key is not an array of
/// strings.
pub open spec fn spec_extract(
    strs: Map<Seq<char>, Option<Seq<char>>>,
    arrs: Map<Seq<char>, Option<Seq<Seq<char>>>>,
) -> Result<RawManifestV, ErrorV> {
    if req_field(strs, "name"@) is None || req_field(strs, "game"@) is None || req_field(
        strs,
        "platform"@,
    ) is None || req_field(strs, "icon_path"@) is None || !opt_field_ok(strs, "shortdescription"@)
        || !opt_field_ok(strs, "description"@) || !opt_field_ok(strs, "custom_textures_path"@)
        || !opt_field_ok(strs, "custom_game_files_path"@) || !opt_field_ok(strs, "scripts_path"@)
        || (arrs.dom().contains("dependencies"@) && arrs["dependencies"@] is None) {
        Err(ErrorV::ManifestMalformed)
    } else {
        Ok(
            RawManifestV {
                name: req_field(strs, "name"@)->0,
                game: req_field(strs, "game"@)->0,
                platform: req_field(strs, "platform"@)->0,
                shortdescription: opt_field(strs, "shortdescription"@),
                description: opt_field(strs, "description"@),
                dependencies: if arrs.dom().contains("dependencies"@) {
                    Some(arrs["dependencies"@]->0)
                } else {
                    None
                },
                custom_textures_path: opt_field(strs, "custom_textures_path"@),
                custom_game_files_path: opt_field(strs, "custom_game_files_path"@),
                scripts_path: opt_field(strs, "scripts_path"@),
                icon_path: req_field(strs, "icon_path"@)->0,
            },
        )
    }
}

/// Read a required string key or fail as malformed.
fn required_string(m: &serde_json::Map<String, serde_json::Value>, key: &str) -> (r: Result<
    String,
    ValidationError,
>)
    ensures
        match r {
            Ok(s) => req_field(obj_strings(*m), key@) == Some(s@),
            Err(e) => req_field(obj_strings(*m), key@) is None && e@ == ErrorV::ManifestMalformed,
        },
{
    match get_string_entry(m, key) {
        Some(Some(s)) => Ok(s),
        Some(None) => Err(ValidationError::ManifestMalformed),
        None => Err(ValidationError::ManifestMalformed),
    }
}

/// Read an optional string key; present but mistyped fails as malformed.
fn optional_string(m: &serde_json::Map<String, serde_json::Value>, key: &str) -> (r: Result<
    Option<String>,
    ValidationError,
>)
    ensures
        match r {
            Ok(o) => opt_field_ok(obj_strings(*m), key@) && opt_field(obj_strings(*m), key@)
                == o.deep_view(),
            Err(e) => !opt_field_ok(obj_strings(*m), key@) && e@ == ErrorV::ManifestMalformed,
        },
{
    match get_string_entry(m, key) {
        Some(Some(s)) => Ok(Some(s)),
        Some(None) => Err(ValidationError::ManifestMalformed),
        None => Ok(None),
    }
}

/// Extract the raw record from a parsed manifest object, exactly as
/// [`spec_extract`] states.
pub fn extract_manifest(m: &serde_json::Map<String, serde_json::Value>) -> (r: Result<
    RawManifest,
    ValidationError,
>)
    ensures
        match r {
            Ok(raw) => spec_extract(obj_strings(*m), obj_string_arrays(*m)) == Ok::<
                RawManifestV,
                ErrorV,
            >(raw@),
            Err(e) => spec_extract(obj_strings(*m), obj_string_arrays(*m)) == Err::<
                RawManifestV,
                ErrorV,
            >(e@),
        },
{
    let name = match required_string(m, "name") {
        Ok(s) => s,
        Err(e) => return Err(e),
    };
    let game = match required_string(m, "game") {
        Ok(s) => s,
        Err(e) => return Err(e),
    };
    let platform = match required_string(m, "platform") {
        Ok(s) => s,
        Err(e) => return Err(e),
    };
    let icon_path = match required_string(m, "icon_path") {
        Ok(s) => s,
        Err(e) => return Err(e),
    };
    let shortdescription = match optional_string(m, "shortdescription") {
        Ok(o) => o,
        Err(e) => return Err(e),
    };
    let description = match optional_string(m, "description") {
        Ok(o) => o,
        Err(e) => return Err(e),
    };
    let custom_textures_path = match optional_string(m, "custom_textures_path") {
        Ok(o) => o,
        Err(e) => return Err(e),
    };
    let custom_game_files_path = match optional_string(m, "custom_game_files_path") {
        Ok(o) => o,
        Err(e) => return Err(e),
    };
    let scripts_path = match optional_string(m, "scripts_path") {
        Ok(o) => o,
        Err(e) => return Err(e),
    };
    let dependencies = match get_string_array_entry(m, "dependencies") {
        Some(Some(v)) => Some(v),
        Some(None) => return Err(ValidationError::ManifestMalformed),
        None => None,
    };
    let raw = RawManifest {
        name,
        game,
        platform,
        shortdescription,
        description,
        dependencies,
        custom_textures_path,
        custom_game_files_path,
        scripts_path,
        icon_path,
    };
    proof {
        let expect = spec_extract(obj_strings(*m), obj_string_arrays(*m));
        assert(expect matches Ok(v) && v =~= raw@);
    }
    Ok(raw)
}

/// What loading decides for a manifest text: a text that does not parse as a
/// JSON object is malformed; otherwise the extraction of the parsed object's
/// fields, per [`spec_extract`]. A function of the text alone.
pub open spec fn spec_load(s: Seq<char>) -> Result<RawManifestV, ErrorV> {
    if !parses_as_object(s) {
        Err(ErrorV::ManifestMalformed)
    } else {
        spec_extract(obj_strings_of(s), obj_string_arrays_of(s))
    }
}

/// Load the manifest from its text: parse the JSON object and extract the
/// record, exactly as [`spec_load`] states.
pub fn load_manifest(text: &str) -> (r: Result<RawManifest, ValidationError>)
    ensures
        match r {
            Ok(raw) => spec_load(text@) == Ok::<RawManifestV, ErrorV>(raw@),
            Err(e) => spec_load(text@) == Err::<RawManifestV, ErrorV>(e@),
        },
{
    match parse_json_object(text) {
        None => Err(ValidationError::ManifestMalformed),
        Some(obj) => extract_manifest(&obj),
    }
}

} // verus!

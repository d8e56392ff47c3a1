//! The error taxonomy of the validator. Every failure is terminal for the
//! call that raised it; each variant carries what a caller needs to render a
//! human-readable message.

use vstd::prelude::*;
use vstd::string::StringExecFns;

verus! {

/// Which manifest path field a path error speaks of.
#[derive(Clone, Copy, PartialEq, Eq, Structural, Debug)]
pub enum PathField {
    Textures,
    GameFiles,
    Scripts,
    Icon,
}

/// A validation failure. The path errors are parameterized by the field they
/// name; the banned-extension error carries the offending extension in lower
/// case; I/O faults met during the recursive scan carry the underlying
/// description.
#[derive(Clone, PartialEq, Eq, Debug)]
pub enum ValidationError {
    ManifestMissing,
    ManifestMalformed,
    EmptyName,
    EmptyDescription,
    UnsupportedGame,
    UnsupportedPlatform,
    IncompatibleGamePlatform,
    /// The field is set although the game/platform pair does not support the
    /// capability (textures on the desktop build; scripts outside the one
    /// scripting-capable pair).
    CapabilityNotAllowed(PathField),
    EmptyPath(PathField),
    AbsolutePathNotAllowed(PathField),
    PathNotFound(PathField),
    InvalidDependencyName,
    BannedFileExtension(String),
    Io(String),
}

/// Mathematical image of a [`ValidationError`].
#[verifier::ext_equal]
pub ghost enum ErrorV {
    ManifestMissing,
    ManifestMalformed,
    EmptyName,
    EmptyDescription,
    UnsupportedGame,
    UnsupportedPlatform,
    IncompatibleGamePlatform,
    CapabilityNotAllowed(PathField),
    EmptyPath(PathField),
    AbsolutePathNotAllowed(PathField),
    PathNotFound(PathField),
    InvalidDependencyName,
    BannedFileExtension(Seq<char>),
    Io(Seq<char>),
}

impl View for ValidationError {
    type V = ErrorV;

    open spec fn view(&self) -> ErrorV {
        match self {
            ValidationError::ManifestMissing => ErrorV::ManifestMissing,
            ValidationError::ManifestMalformed => ErrorV::ManifestMalformed,
            ValidationError::EmptyName => ErrorV::EmptyName,
            ValidationError::EmptyDescription => ErrorV::EmptyDescription,
            ValidationError::UnsupportedGame => ErrorV::UnsupportedGame,
            ValidationError::UnsupportedPlatform => ErrorV::UnsupportedPlatform,
            ValidationError::IncompatibleGamePlatform => ErrorV::IncompatibleGamePlatform,
            ValidationError::CapabilityNotAllowed(f) => ErrorV::CapabilityNotAllowed(*f),
            ValidationError::EmptyPath(f) => ErrorV::EmptyPath(*f),
            ValidationError::AbsolutePathNotAllowed(f) => ErrorV::AbsolutePathNotAllowed(*f),
            ValidationError::PathNotFound(f) => ErrorV::PathNotFound(*f),
            ValidationError::InvalidDependencyName => ErrorV::InvalidDependencyName,
            ValidationError::BannedFileExtension(e) => ErrorV::BannedFileExtension(e@),
            ValidationError::Io(m) => ErrorV::Io(m@),
        }
    }
}

/// The field's name as it appears in messages.
pub open spec fn field_label(f: PathField) -> Seq<char> {
    match f {
        PathField::Textures => "custom textures path"@,
        PathField::GameFiles => "custom game files path"@,
        PathField::Scripts => "scripts path"@,
        PathField::Icon => "mod icon path"@,
    }
}

/// The human-readable message of an error.
pub open spec fn message_spec(e: ErrorV) -> Seq<char> {
    match e {
        ErrorV::ManifestMissing => "mod.json does not exist."@,
        ErrorV::ManifestMalformed => "mod.json is malformed."@,
        ErrorV::EmptyName => "mod name is empty."@,
        ErrorV::EmptyDescription => "mod description is empty."@,
        ErrorV::UnsupportedGame => "could not recognize defined game."@,
        ErrorV::UnsupportedPlatform => "could not recognize defined platform."@,
        ErrorV::IncompatibleGamePlatform => "impossible game/platform combination."@,
        ErrorV::CapabilityNotAllowed(f) => "capability not available here: "@ + field_label(f),
        ErrorV::EmptyPath(f) => field_label(f) + " is empty."@,
        ErrorV::AbsolutePathNotAllowed(f) => "absolute paths are not allowed: "@ + field_label(f),
        ErrorV::PathNotFound(f) => field_label(f) + " does not exist."@,
        ErrorV::InvalidDependencyName => "only alphanumerics are allowed in dependency list."@,
        ErrorV::BannedFileExtension(x) => "mod contains illegal file ("@ + x + ")"@,
        ErrorV::Io(m) => "i/o failure: "@ + m,
    }
}

impl ValidationError {
    /// Render the message [`message_spec`] states.
    pub fn message(&self) -> (r: String)
        ensures
            r@ == message_spec(self@),
    {
        let r = match self {
            ValidationError::ManifestMissing => String::from_str("mod.json does not exist."),
            ValidationError::ManifestMalformed => String::from_str("mod.json is malformed."),
            ValidationError::EmptyName => String::from_str("mod name is empty."),
            ValidationError::EmptyDescription => String::from_str("mod description is empty."),
            ValidationError::UnsupportedGame => String::from_str(
                "could not recognize defined game.",
            ),
            ValidationError::UnsupportedPlatform => String::from_str(
                "could not recognize defined platform.",
            ),
            ValidationError::IncompatibleGamePlatform => String::from_str(
                "impossible game/platform combination.",
            ),
            ValidationError::CapabilityNotAllowed(f) => String::from_str(
                "capability not available here: ",
            ).concat(field_label_str(*f)),
            ValidationError::EmptyPath(f) => String::from_str(field_label_str(*f)).concat(
                " is empty.",
            ),
            ValidationError::AbsolutePathNotAllowed(f) => String::from_str(
                "absolute paths are not allowed: ",
            ).concat(field_label_str(*f)),
            ValidationError::PathNotFound(f) => String::from_str(field_label_str(*f)).concat(
                " does not exist.",
            ),
            ValidationError::InvalidDependencyName => String::from_str(
                "only alphanumerics are allowed in dependency list.",
            ),
            ValidationError::BannedFileExtension(x) => String::from_str(
                "mod contains illegal file (",
            ).concat(x.as_str()).concat(")"),
            ValidationError::Io(m) => String::from_str("i/o failure: ").concat(m.as_str()),
        };
        r
    }
}

/// The field's label, per [`field_label`].
pub fn field_label_str(f: PathField) -> (r: &'static str)
    ensures
        r@ == field_label(f),
{
    match f {
        PathField::Textures => "custom textures path",
        PathField::GameFiles => "custom game files path",
        PathField::Scripts => "scripts path",
        PathField::Icon => "mod icon path",
    }
}

} // verus!

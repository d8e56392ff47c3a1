//! The two filesystem queries the pipeline makes: whether an entry exists at
//! a path, and the recursive walk of the package tree. Both answers depend on
//! the state of the disk, so the contracts promise nothing of their values;
//! everything done with the answers is verified for every possible answer.

use vstd::prelude::*;
use vstd::string::StringExecFns;

verus! {

#[verifier::external_type_specification]
#[verifier::external_body]
pub struct ExWalkIntoIter(walkdir::IntoIter);

#[verifier::external_type_specification]
#[verifier::external_body]
pub struct ExWalkDirEntry(walkdir::DirEntry);

#[verifier::external_type_specification]
#[verifier::external_body]
pub struct ExWalkError(walkdir::Error);

/// Relies on `std::path::Path::exists`: whether some filesystem entry exists
/// at the path. The answer depends on the state of the disk.
#[verifier::external_body]
pub(crate) fn path_exists(p: &str) -> (r: bool) {
    std::path::Path::new(p).exists()
}

/// Relies on `walkdir::WalkDir::new` and its `IntoIterator` impl: a
/// depth-first iterator over the tree rooted at the path, the root included.
#[verifier::external_body]
pub(crate) fn walk_new(root: &str) -> (r: walkdir::IntoIter) {
    walkdir::WalkDir::new(root).into_iter()
}

/// How many entries the walk still has to yield. A walk without followed
/// symbolic links enumerates a finite tree, so every yielded entry leaves
/// fewer behind: the measure the scan's termination rests on.
pub uninterp spec fn walk_fuel(it: walkdir::IntoIter) -> nat;

/// Relies on `walkdir::IntoIter::next` and `walkdir::DirEntry::path`: the
/// next entry as a plain pair — whether it is a directory, and its file
/// extension (empty when it has none or it cannot be read as text) — or the
/// walk fault rendered as text; nothing once the walk is done. What comes
/// back depends on the state of the disk; the walk yields finitely many
/// entries, so every answer lowers [`walk_fuel`].
#[verifier::external_body]
pub(crate) fn walk_next(it: &mut walkdir::IntoIter) -> (r: Option<
    Result<(bool, String), String>,
>)
    ensures
        r is Some ==> walk_fuel(*final(it)) < walk_fuel(*old(it)),
{
    match it.next() {
        None => None,
        Some(Err(e)) => Some(Err(e.to_string())),
        Some(Ok(entry)) => {
            let is_dir = entry.path().is_dir();
            let ext = entry.path().extension().and_then(|x| x.to_str()).unwrap_or("");
            Some(Ok((is_dir, ext.to_string())))
        },
    }
}

/// The root and the relative path joined with the separator.
pub fn join_path(root: &str, rel: &str) -> (r: String)
    ensures
        r@ == root@ + seq!['/'] + rel@,
{
    let mut s = String::from_str(root);
    s.append("/");
    s.append(rel);
    proof {
        reveal_strlit("/");
        assert(s@ =~= root@ + seq!['/'] + rel@);
    }
    s
}

} // verus!

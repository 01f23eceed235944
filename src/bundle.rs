use vstd::prelude::*;
use crate::error::{Arch, BundleError};
use vstd::string::StringExecFns;

verus! {

/// The directories of the working tree that archives are extracted into.
#[derive(Debug, Clone, Copy, PartialEq, Eq, Structural)]
pub enum Target {
    /// The root of the working tree: the UI launcher goes there.
    BundleRoot,
    /// The framework directory of one architecture.
    Framework(Arch),
}

pub open spec fn root_dir() -> Seq<char> {
    "out"@
}

pub open spec fn framework_dir() -> Seq<char> {
    "GenericFramework"@
}

pub open spec fn dist_dir() -> Seq<char> {
    "dist"@
}

/// The path of a target, by components.
pub open spec fn target_path(t: Target) -> Seq<Seq<char>> {
    match t {
        Target::BundleRoot => seq![root_dir()],
        Target::Framework(a) => seq![root_dir(), framework_dir(), crate::error::arch_marker(a)],
    }
}

pub fn target_dir(t: Target) -> (r: Vec<String>)
    ensures
        crate::archive::components(r@) == target_path(t),
{
    let mut r: Vec<String> = Vec::new();
    r.push(<String as StringExecFns>::from_str("out"));
    if let Target::Framework(a) = t {
        r.push(<String as StringExecFns>::from_str("GenericFramework"));
        r.push(<String as StringExecFns>::from_str(a.marker()));
    }
    assert(crate::archive::components(r@) =~= target_path(t));
    r
}

/// The directories created before any extraction: the root and the framework directory.
pub fn skeleton_dirs() -> (r: Vec<Vec<String>>)
    ensures
        r@.len() == 2,
        crate::archive::components(r@[0]@) == seq![root_dir()],
        crate::archive::components(r@[1]@) == seq![root_dir(), framework_dir()],
{
    let mut root: Vec<String> = Vec::new();
    root.push(<String as StringExecFns>::from_str("out"));
    let mut fw: Vec<String> = Vec::new();
    fw.push(<String as StringExecFns>::from_str("out"));
    fw.push(<String as StringExecFns>::from_str("GenericFramework"));
    let mut r: Vec<Vec<String>> = Vec::new();
    r.push(root);
    r.push(fw);
    assert(crate::archive::components(r@[0]@) =~= seq![root_dir()]);
    assert(crate::archive::components(r@[1]@) =~= seq![root_dir(), framework_dir()]);
    r
}

/// The file name of the packaged bundle of a version.
pub fn bundle_file_name(version: &str) -> (r: String)
    ensures
        r@ == "AndrasteBundle-"@ + version@ + ".zip"@,
{
    <String as StringExecFns>::from_str("AndrasteBundle-").concat(version).concat(".zip")
}

/// What removing the output directory reported.
#[derive(Debug, Clone, Copy, PartialEq, Eq, Structural)]
pub enum Removal {
    Removed,
    NotFound,
    Failed,
}

/// Whether removing a directory can report `r` when the directory is `present` or not.
pub open spec fn removal_possible(present: bool, r: Removal) -> bool {
    match r {
        Removal::Removed => present,
        Removal::NotFound => !present,
        Removal::Failed => true,
    }
}

/// The outcome of clearing the output: a directory that was already absent is
/// no error.
pub fn clear_outcome(removal: Removal) -> (r: Result<(), BundleError>)
    ensures
        r == clear_outcome_spec(removal),
        r is Ok <==> removal != Removal::Failed,
{
    match removal {
        Removal::Failed => Err(BundleError::Filesystem),
        _ => Ok(()),
    }
}

/// Clearing twice in a row succeeds both times: after a successful clear the
/// directory is gone, and the storage layer reports nothing but its absence
/// (or an error of its own) on the second removal.
pub proof fn lemma_clear_twice(present: bool, first: Removal, second: Removal)
    requires
        removal_possible(present, first),
        first != Removal::Failed,
        removal_possible(false, second),
        second != Removal::Failed,
    ensures
        clear_outcome_spec(first) is Ok,
        clear_outcome_spec(second) is Ok,
        second == Removal::NotFound,
{
}

pub open spec fn clear_outcome_spec(removal: Removal) -> Result<(), BundleError> {
    match removal {
        Removal::Failed => Err(BundleError::Filesystem),
        _ => Ok(()),
    }
}

/// The stages of building a bundle.
#[derive(Debug, Clone, Copy, PartialEq, Eq, Structural)]
pub enum Stage {
    Init,
    Fetching,
    Packaging,
    Done,
    Failed,
}

/// The stage after `stage` once its work reported `outcome`.
pub fn next_stage(stage: Stage, outcome: Result<(), BundleError>) -> (r: Stage)
    ensures
        outcome is Err && (stage == Stage::Fetching || stage == Stage::Packaging) ==> r
            == Stage::Failed,
        outcome is Ok && stage == Stage::Init ==> r == Stage::Fetching,
        outcome is Ok && stage == Stage::Fetching ==> r == Stage::Packaging,
        outcome is Ok && stage == Stage::Packaging ==> r == Stage::Done,
        stage == Stage::Done || stage == Stage::Failed ==> r == stage,
        outcome is Err && stage == Stage::Init ==> r == Stage::Failed,
{
    match stage {
        Stage::Done => Stage::Done,
        Stage::Failed => Stage::Failed,
        _ => match outcome {
            Err(_) => Stage::Failed,
            Ok(()) => match stage {
                Stage::Init => Stage::Fetching,
                Stage::Fetching => Stage::Packaging,
                _ => Stage::Done,
            },
        },
    }
}

} // verus!

use vstd::prelude::*;
use crate::error::{Arch, BundleError, arch_marker};
use crate::parser::{BundleSettings, RepoSpec};
use vstd::string::StrSliceExecFns;
use vstd::string::StringExecFns;

verus! {

/// `needle` occurs in `hay` at position `i`.
pub open spec fn occurs_at(hay: Seq<char>, needle: Seq<char>, i: int) -> bool {
    0 <= i && i + needle.len() <= hay.len() && hay.subrange(i, i + needle.len()) == needle
}

/// `needle` occurs somewhere in `hay`.
pub open spec fn text_contains(hay: Seq<char>, needle: Seq<char>) -> bool {
    exists|i: int| occurs_at(hay, needle, i)
}

/// Asset `k` is the first whose name holds `needle`.
pub open spec fn is_first_with(names: Seq<String>, needle: Seq<char>, k: int) -> bool {
    0 <= k < names.len() && text_contains(names[k]@, needle) && forall|j: int|
        0 <= j < k ==> !text_contains(#[trigger] names[j]@, needle)
}

/// No asset name holds `needle`.
pub open spec fn none_with(names: Seq<String>, needle: Seq<char>) -> bool {
    forall|j: int| 0 <= j < names.len() ==> !text_contains(#[trigger] names[j]@, needle)
}

/// Substring search over characters.
pub fn contains_text(hay: &str, needle: &str) -> (r: bool)
    ensures
        r == text_contains(hay@, needle@),
{
    let h = hay.unicode_len();
    let n = needle.unicode_len();
    if n > h {
        assert forall|i: int| !occurs_at(hay@, needle@, i) by {}
        return false;
    }
    let mut i: usize = 0;
    while i <= h - n
        invariant
            h == hay@.len(),
            n == needle@.len(),
            n <= h,
            i <= h - n + 1,
            forall|p: int| 0 <= p < i ==> !occurs_at(hay@, needle@, p),
        decreases h - n + 1 - i,
    {
        let mut j: usize = 0;
        let mut same = true;
        while j < n && same
            invariant
                h == hay@.len(),
                n == needle@.len(),
                i + n <= h,
                j <= n,
                same ==> forall|k: int| 0 <= k < j ==> hay@[i + k] == needle@[k],
                !same ==> j > 0 && hay@[i + j - 1] != needle@[j - 1],
            decreases n - j + if same { 1int } else { 0int },
        {
            if hay.get_char(i + j) != needle.get_char(j) {
                same = false;
            }
            j = j + 1;
        }
        if same {
            assert(hay@.subrange(i as int, i + n) =~= needle@);
            assert(occurs_at(hay@, needle@, i as int));
            return true;
        }
        assert(!occurs_at(hay@, needle@, i as int)) by {
            assert(hay@.subrange(i as int, i + n)[j - 1] == hay@[i + j - 1]);
        }
        i = i + 1;
    }
    assert forall|p: int| !occurs_at(hay@, needle@, p) by {
        if 0 <= p && p + n <= h {
            assert(p < i);
        }
    }
    false
}

/// The first asset whose name holds `needle`.
pub fn find_first_with(names: &Vec<String>, needle: &str) -> (r: Option<usize>)
    ensures
        r matches Some(k) ==> is_first_with(names@, needle@, k as int),
        r is None <==> none_with(names@, needle@),
{
    let mut i: usize = 0;
    while i < names.len()
        invariant
            i <= names@.len(),
            forall|j: int| 0 <= j < i ==> !text_contains(#[trigger] names@[j]@, needle@),
        decreases names@.len() - i,
    {
        if contains_text(names[i].as_str(), needle) {
            return Some(i);
        }
        i = i + 1;
    }
    None
}

/// Requires a release to hold exactly one asset, and picks it.
pub fn select_single_asset(names: &Vec<String>) -> (r: Result<usize, BundleError>)
    ensures
        names@.len() == 1 ==> r == Ok::<usize, BundleError>(0),
        names@.len() != 1 ==> r == Err::<usize, BundleError>(
            BundleError::UnexpectedAssetCount { expected: 1, found: names@.len() as usize },
        ),
{
    if names.len() != 1 {
        return Err(BundleError::UnexpectedAssetCount { expected: 1, found: names.len() });
    }
    Ok(0)
}

/// The two launcher builds of a release, by index into its assets.
#[derive(Debug, Clone, Copy, PartialEq, Eq, Structural)]
pub struct LauncherPick {
    pub x64: usize,
    pub x86: usize,
}

/// Requires exactly two assets and picks, for each architecture, the first
/// asset whose name carries its marker.
pub fn select_launcher_assets(names: &Vec<String>) -> (r: Result<LauncherPick, BundleError>)
    ensures
        names@.len() != 2 ==> r == Err::<LauncherPick, BundleError>(
            BundleError::UnexpectedAssetCount { expected: 2, found: names@.len() as usize },
        ),
        names@.len() == 2 && none_with(names@, arch_marker(Arch::X64)) ==> r == Err::<
            LauncherPick,
            BundleError,
        >(BundleError::AssetNotFound { arch: Arch::X64 }),
        names@.len() == 2 && !none_with(names@, arch_marker(Arch::X64)) && none_with(
            names@,
            arch_marker(Arch::X86),
        ) ==> r == Err::<LauncherPick, BundleError>(
            BundleError::AssetNotFound { arch: Arch::X86 },
        ),
        r is Ok <==> names@.len() == 2 && !none_with(names@, arch_marker(Arch::X64))
            && !none_with(names@, arch_marker(Arch::X86)),
        r matches Ok(p) ==> is_first_with(names@, arch_marker(Arch::X64), p.x64 as int)
            && is_first_with(names@, arch_marker(Arch::X86), p.x86 as int),
{
    if names.len() != 2 {
        return Err(BundleError::UnexpectedAssetCount { expected: 2, found: names.len() });
    }
    let x64 = match find_first_with(names, Arch::X64.marker()) {
        Some(k) => k,
        None => {
            return Err(BundleError::AssetNotFound { arch: Arch::X64 });
        },
    };
    let x86 = match find_first_with(names, Arch::X86.marker()) {
        Some(k) => k,
        None => {
            return Err(BundleError::AssetNotFound { arch: Arch::X86 });
        },
    };
    Ok(LauncherPick { x64, x86 })
}

/// The organisation of the payload repository used when none is given.
pub open spec fn default_payload_organisation() -> Seq<char> {
    "AndrasteFramework"@
}

/// The payload repository used when none is given.
pub open spec fn default_payload_repository() -> Seq<char> {
    "Payload.Generic"@
}

/// The repository whose release carries the generic payload.
pub fn payload_repo(settings: &BundleSettings) -> (r: RepoSpec)
    ensures
        settings.framework_repo matches Some(p) ==> r.organisation@ == p.organisation@
            && r.repository@ == p.repository@,
        settings.framework_repo is None ==> r.organisation@ == default_payload_organisation()
            && r.repository@ == default_payload_repository(),
{
    match &settings.framework_repo {
        Some(p) => RepoSpec::new(p.organisation.as_str(), p.repository.as_str()),
        None => RepoSpec::new("AndrasteFramework", "Payload.Generic"),
    }
}

} // verus!

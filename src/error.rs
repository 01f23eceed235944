use vstd::prelude::*;

verus! {

/// The architecture a launcher build targets.
#[derive(Debug, Clone, Copy, PartialEq, Eq, Structural)]
pub enum Arch {
    X64,
    X86,
}

/// Why a bundle could not be assembled.
#[derive(Debug, Clone, Copy, PartialEq, Eq, Structural)]
pub enum BundleError {
    /// The release host or the transport failed.
    RemoteFailure,
    /// No release carries the requested tag.
    ReleaseNotFound,
    /// A release holds another number of assets than the layout needs.
    UnexpectedAssetCount { expected: usize, found: usize },
    /// No asset of a release names the architecture.
    AssetNotFound { arch: Arch },
    /// Downloaded bytes are no valid archive.
    ArchiveCorrupt,
    /// The README template holds whitespace that the template engine cannot take.
    UnsupportedTemplate,
    /// A path of the working tree is not valid text.
    InvalidPathEncoding,
    /// The storage layer failed.
    Filesystem,
}

impl Arch {
    /// The marker that an asset name carries for this architecture.
    pub fn marker(&self) -> (r: &'static str)
        ensures
            r@ == arch_marker(*self),
    {
        match self {
            Arch::X64 => "x64",
            Arch::X86 => "x86",
        }
    }
}

pub open spec fn arch_marker(a: Arch) -> Seq<char> {
    match a {
        Arch::X64 => "x64"@,
        Arch::X86 => "x86"@,
    }
}

} // verus!

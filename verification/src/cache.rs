//! Resolution of toolchain binaries from the versioned cache.
//!
//! The cache is a fixed directory layout, `<cache_root>/<version>/<binary>`.
//! The resolver only locates binaries: it computes the expected path and
//! judges an existence observation supplied by the caller.  Installing a
//! version into the cache belongs to an external install manager.

use vstd::prelude::*;
use crate::text::{path_join, spec_join};
use crate::version::ToolchainVersion;

verus! {

/// The logical name of a toolchain binary.
#[derive(Clone, Copy, PartialEq, Eq, Structural, Debug)]
pub enum BinaryKind {
    /// The compiler that produces the binary artifact and the interface
    /// description.
    Compiler,
    /// The compiler that turns an interface description into language
    /// bindings.
    IdlCompiler,
    /// The long-running client executable.
    Client,
    /// The supervisor that hosts the client.
    NodeManager,
}

impl BinaryKind {
    /// The file name under which this binary is cached.
    pub open spec fn spec_name(self) -> Seq<char> {
        match self {
            BinaryKind::Compiler => "asc"@,
            BinaryKind::IdlCompiler => "didc"@,
            BinaryKind::Client => "client"@,
            BinaryKind::NodeManager => "nodemanager"@,
        }
    }

    /// The file name under which this binary is cached.
    pub fn name(&self) -> (r: &'static str)
        ensures
            r@ == self.spec_name(),
    {
        match self {
            BinaryKind::Compiler => "asc",
            BinaryKind::IdlCompiler => "didc",
            BinaryKind::Client => "client",
            BinaryKind::NodeManager => "nodemanager",
        }
    }
}

/// The cache directory that holds one toolchain version.
pub open spec fn spec_version_root(cache_root: Seq<char>, version: Seq<char>) -> Seq<char> {
    spec_join(cache_root, version)
}

/// The cached path of one binary of one toolchain version.
pub open spec fn spec_binary_path(
    cache_root: Seq<char>,
    version: Seq<char>,
    binary: Seq<char>,
) -> Seq<char> {
    spec_join(spec_version_root(cache_root, version), binary)
}

/// Computes the path at which the cache keeps `binary` for `version`,
/// whether or not that version is installed.
pub fn get_binary_path_from_version(cache_root: &str, version: &str, binary: &str) -> (r: String)
    ensures
        r@ == spec_binary_path(cache_root@, version@, binary@),
{
    let root = path_join(cache_root, version);
    path_join(root.as_str(), binary)
}

/// Failure to locate a toolchain binary.
#[derive(PartialEq, Eq, Debug)]
pub enum ResolutionError {
    /// The requested toolchain version is not present in the cache; the
    /// value is the full version string.  An external install manager must
    /// populate the cache before resolution can succeed.
    NotInstalled(String),
}

/// Locates toolchain binaries inside a process-wide versioned cache
/// directory.  Stateless: every call is a pure path computation plus the
/// judgment of the caller's existence observation.
pub struct ToolchainResolver {
    /// The root directory of the versioned binary cache.
    pub cache_root: String,
}

impl ToolchainResolver {
    /// A resolver for the cache rooted at `cache_root`.
    pub fn new(cache_root: String) -> (r: Self)
        ensures
            r.cache_root == cache_root,
    {
        ToolchainResolver { cache_root }
    }

    /// The directory under which `version` is (or would be) installed.
    pub fn install_root(&self, version: &ToolchainVersion) -> (r: String)
        ensures
            r@ == spec_version_root(self.cache_root@, version.full@),
    {
        path_join(self.cache_root.as_str(), version.full.as_str())
    }

    /// Resolves `binary` of `version` to its absolute cached path.
    ///
    /// `installed` is the caller's observation of whether the version's
    /// install root exists on disk; the resolver itself never touches the
    /// filesystem.  A debug toolchain is never reported as installed, so
    /// that the install manager re-provisions it on every run and a stale
    /// development build is never picked up silently.
    pub fn resolve(
        &self,
        version: &ToolchainVersion,
        binary: BinaryKind,
        installed: bool,
    ) -> (r: Result<String, ResolutionError>)
        requires
            version.full@.len() > 0,
        ensures
            match r {
                Ok(p) => !version.debug && installed && p@ == spec_binary_path(
                    self.cache_root@,
                    version.full@,
                    binary.spec_name(),
                ),
                Err(ResolutionError::NotInstalled(v)) => (version.debug || !installed) && v@
                    == version.full@,
            },
    {
        if version.is_debug() || !installed {
            Err(ResolutionError::NotInstalled(version.full.clone()))
        } else {
            Ok(
                get_binary_path_from_version(
                    self.cache_root.as_str(),
                    version.full.as_str(),
                    binary.name(),
                ),
            )
        }
    }
}

} // verus!

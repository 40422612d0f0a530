//! Toolchain versions.
//!
//! A toolchain version is an opaque version string, possibly extended with a
//! debug tag.  A debug toolchain is never considered installed, so that a
//! development build is re-provisioned on every run.

use vstd::prelude::*;
use vstd::string::StringExecFns;

verus! {

/// The tag appended to the base version of a debug build.
pub open spec fn spec_debug_tag() -> Seq<char> {
    "-debug"@
}

/// The full version string of a toolchain: the base version, with the debug
/// tag appended for a debug build.
pub open spec fn spec_full_version(base: Seq<char>, debug: bool) -> Seq<char> {
    if debug {
        base + spec_debug_tag()
    } else {
        base
    }
}

/// A resolved toolchain version.  Identity is exact string equality of the
/// full version string; the value is immutable once constructed.
pub struct ToolchainVersion {
    /// The full version string, including the debug tag for a debug build.
    pub full: String,
    /// Whether this is a debug build of the toolchain.
    pub debug: bool,
}

impl ToolchainVersion {
    /// Whether this toolchain is a debug build.
    pub fn is_debug(&self) -> (r: bool)
        ensures
            r == self.debug,
    {
        self.debug
    }
}

/// Computes the toolchain version in use from the base version string of this
/// build and the build mode.  In debug mode the version string gets a debug
/// tag, so that a debug toolchain is cached under a name of its own and is
/// never mistaken for a released one.
pub fn dfx_version(base: &str, debug: bool) -> (r: ToolchainVersion)
    ensures
        r.full@ == spec_full_version(base@, debug),
        r.debug == debug,
{
    let mut full = String::from_str(base);
    if debug {
        full.append("-debug");
    }
    let r = ToolchainVersion { full, debug };
    proof {
        assert(r.full@ == spec_full_version(base@, debug));
    }
    r
}

} // verus!

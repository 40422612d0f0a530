//! The environments a command runs in.
//!
//! Capabilities are explicit interfaces — resolving binaries, reading the
//! project configuration, naming the client endpoint, knowing the toolchain
//! version — implemented by two concrete environments: one inside a
//! project, built from the project's configuration, and a global one
//! outside any project.

use vstd::prelude::*;
use vstd::string::StringExecFns;
use crate::cache::{get_binary_path_from_version, spec_binary_path, BinaryKind};
use crate::command::{ActorScriptCommandBuilder, ClientCommandBuilder, IdlCompilerCommandBuilder};
use crate::config::{spec_default_address, spec_default_port, Config};
use crate::pipeline::BuildPipeline;
use crate::text::{append_u64_dec, path_parent, spec_dec, spec_parent};
use crate::version::ToolchainVersion;

verus! {

/// Resolves the logical binaries of one toolchain version to their cached
/// paths and wraps each in its command builder.
pub trait BinaryMap {
    /// The full version string whose binaries this map resolves.
    spec fn spec_version(&self) -> Seq<char>;

    /// The root of the versioned binary cache.
    spec fn spec_cache_root(&self) -> Seq<char>;

    /// A fresh builder for the source compiler of this version.
    fn actorscript_compiler(&self) -> (r: ActorScriptCommandBuilder)
        ensures
            r.binary_path@ == spec_binary_path(
                self.spec_cache_root(),
                self.spec_version(),
                BinaryKind::Compiler.spec_name(),
            ),
            r.input_path is None,
            r.output_path is None,
            !r.idl,
    ;

    /// A fresh builder for the interface-description compiler of this
    /// version.
    fn idl_compiler(&self) -> (r: IdlCompilerCommandBuilder)
        ensures
            r.binary_path@ == spec_binary_path(
                self.spec_cache_root(),
                self.spec_version(),
                BinaryKind::IdlCompiler.spec_name(),
            ),
            r.input_path is None,
            r.output_path is None,
            !r.js,
    ;

    /// A fresh builder for the client of this version under its node
    /// manager.
    fn client(&self) -> (r: ClientCommandBuilder)
        ensures
            r.nodemanager_path@ == spec_binary_path(
                self.spec_cache_root(),
                self.spec_version(),
                BinaryKind::NodeManager.spec_name(),
            ),
            r.client_path@ == spec_binary_path(
                self.spec_cache_root(),
                self.spec_version(),
                BinaryKind::Client.spec_name(),
            ),
    ;
}

/// The binary map of one fixed toolchain version inside one fixed cache.
pub struct VersionedBinaryMap {
    /// The full version string whose binaries are resolved.
    pub version: String,
    /// The root of the versioned binary cache.
    pub cache_root: String,
}

impl BinaryMap for VersionedBinaryMap {
    open spec fn spec_version(&self) -> Seq<char> {
        self.version@
    }

    open spec fn spec_cache_root(&self) -> Seq<char> {
        self.cache_root@
    }

    fn actorscript_compiler(&self) -> (r: ActorScriptCommandBuilder) {
        ActorScriptCommandBuilder::new(
            get_binary_path_from_version(
                self.cache_root.as_str(),
                self.version.as_str(),
                BinaryKind::Compiler.name(),
            ),
        )
    }

    fn idl_compiler(&self) -> (r: IdlCompilerCommandBuilder) {
        IdlCompilerCommandBuilder::new(
            get_binary_path_from_version(
                self.cache_root.as_str(),
                self.version.as_str(),
                BinaryKind::IdlCompiler.name(),
            ),
        )
    }

    fn client(&self) -> (r: ClientCommandBuilder) {
        ClientCommandBuilder::new(
            get_binary_path_from_version(
                self.cache_root.as_str(),
                self.version.as_str(),
                BinaryKind::NodeManager.name(),
            ),
            get_binary_path_from_version(
                self.cache_root.as_str(),
                self.version.as_str(),
                BinaryKind::Client.name(),
            ),
        )
    }
}

impl VersionedBinaryMap {
    /// The build pipeline of this toolchain version: the source compiler
    /// and the binding generator at their cached paths.
    pub fn build_pipeline(&self) -> (r: BuildPipeline)
        ensures
            r.compiler_path@ == spec_binary_path(
                self.cache_root@,
                self.version@,
                BinaryKind::Compiler.spec_name(),
            ),
            r.bindgen_path@ == spec_binary_path(
                self.cache_root@,
                self.version@,
                BinaryKind::IdlCompiler.spec_name(),
            ),
    {
        BuildPipeline::new(
            get_binary_path_from_version(
                self.cache_root.as_str(),
                self.version.as_str(),
                BinaryKind::Compiler.name(),
            ),
            get_binary_path_from_version(
                self.cache_root.as_str(),
                self.version.as_str(),
                BinaryKind::IdlCompiler.name(),
            ),
        )
    }
}

/// An environment that knows the platform's working directory.
pub trait PlatformEnv {
    /// The directory this environment works in.
    spec fn spec_current_dir(&self) -> Seq<char>;

    /// The directory this environment works in.
    fn get_current_dir(&self) -> (r: String)
        ensures
            r@ == self.spec_current_dir(),
    ;
}

/// An environment that judges whether its toolchain version is present in
/// the binary cache.  Populating the cache is the external install
/// manager's work.
pub trait BinaryCacheEnv {
    /// Whether the environment's toolchain is a debug build.
    spec fn spec_is_debug(&self) -> bool;

    /// Whether the toolchain may be used as installed.  `cache_has_version`
    /// is the caller's observation of whether the version's cache directory
    /// exists; a debug toolchain is never installed, so that it is
    /// re-provisioned on every run.
    fn is_installed(&self, cache_has_version: bool) -> (r: bool)
        ensures
            r == (!self.spec_is_debug() && cache_has_version),
    ;
}

/// An environment that resolves binaries from the versioned cache.
pub trait BinaryResolverEnv {
    /// The binary map in force.
    spec fn spec_binary_map(&self) -> VersionedBinaryMap;

    /// The binary map in force.
    fn get_binary_map(&self) -> (r: &VersionedBinaryMap)
        ensures
            *r == self.spec_binary_map(),
    ;
}

/// An environment that may carry a project configuration.
pub trait ProjectConfigEnv {
    /// The project configuration, if the environment is inside a project.
    spec fn spec_config(&self) -> Option<Config>;

    /// Whether the environment is inside a project.
    fn is_in_project(&self) -> (r: bool)
        ensures
            r == (self.spec_config() is Some),
    ;

    /// The project configuration, if the environment is inside a project.
    fn get_config(&self) -> (r: Option<&Config>)
        ensures
            match r {
                Some(c) => self.spec_config() == Some(*c),
                None => self.spec_config() is None,
            },
    ;
}

/// The endpoint of the client an environment talks to.
pub struct ClientConfig {
    /// The URL of the client endpoint.
    pub url: String,
}

/// The client URL built from a serve address and port.
pub open spec fn spec_client_url(address: Seq<char>, port: u16) -> Seq<char> {
    "http://"@ + address + ":"@ + spec_dec(port as int)
}

/// Builds the URL of the client serving `address` on `port`.
pub fn client_url(address: &str, port: u16) -> (r: String)
    ensures
        r@ == spec_client_url(address@, port),
{
    let mut s = String::from_str("http://");
    s.append(address);
    s.append(":");
    append_u64_dec(&mut s, port as u64);
    proof {
        assert(s@ =~= spec_client_url(address@, port));
    }
    s
}

/// An environment that can name the client endpoint it talks to.
pub trait ClientEnv {
    /// The URL of the client endpoint, if the environment has one.
    spec fn spec_client(&self) -> Option<Seq<char>>;

    /// The client endpoint.  Only an environment inside a project serves
    /// one; outside a project there is none.
    fn get_client(&self) -> (r: Option<ClientConfig>)
        ensures
            match r {
                Some(c) => self.spec_client() == Some(c.url@),
                None => self.spec_client() is None,
            },
    ;
}

/// An environment that knows which toolchain version is in force.
pub trait VersionEnv {
    /// The full version string in force.
    spec fn spec_version(&self) -> Seq<char>;

    /// The full version string in force.
    fn get_version(&self) -> (r: &String)
        ensures
            r@ == self.spec_version(),
    ;
}

/// The environment inside a project: its configuration decides the
/// toolchain version, the working directory and the client endpoint.
pub struct InProjectEnvironment {
    /// The toolchain version in force: the project's pinned version if it
    /// declares one, otherwise the running build's own.
    pub version: ToolchainVersion,
    /// The project's configuration.
    pub config: Config,
    /// The binary map for the version in force.
    pub binary_map: VersionedBinaryMap,
}

impl PlatformEnv for InProjectEnvironment {
    open spec fn spec_current_dir(&self) -> Seq<char> {
        spec_parent(self.config.path@)
    }

    fn get_current_dir(&self) -> (r: String) {
        path_parent(self.config.path.as_str())
    }
}

impl BinaryCacheEnv for InProjectEnvironment {
    open spec fn spec_is_debug(&self) -> bool {
        self.version.debug
    }

    fn is_installed(&self, cache_has_version: bool) -> (r: bool) {
        if self.version.is_debug() {
            // A debug version is never installed: it is reinstalled on
            // every run.
            false
        } else {
            cache_has_version
        }
    }
}

impl BinaryResolverEnv for InProjectEnvironment {
    open spec fn spec_binary_map(&self) -> VersionedBinaryMap {
        self.binary_map
    }

    fn get_binary_map(&self) -> (r: &VersionedBinaryMap) {
        &self.binary_map
    }
}

impl ProjectConfigEnv for InProjectEnvironment {
    open spec fn spec_config(&self) -> Option<Config> {
        Some(self.config)
    }

    fn is_in_project(&self) -> (r: bool) {
        true
    }

    fn get_config(&self) -> (r: Option<&Config>) {
        Some(&self.config)
    }
}

impl ClientEnv for InProjectEnvironment {
    open spec fn spec_client(&self) -> Option<Seq<char>> {
        Some(
            spec_client_url(
                match self.config.start_address {
                    Some(a) => a@,
                    None => spec_default_address(),
                },
                match self.config.start_port {
                    Some(p) => p,
                    None => spec_default_port(),
                },
            ),
        )
    }

    fn get_client(&self) -> (r: Option<ClientConfig>) {
        let address = self.config.get_address();
        let port = self.config.get_port();
        Some(ClientConfig { url: client_url(address.as_str(), port) })
    }
}

impl VersionEnv for InProjectEnvironment {
    open spec fn spec_version(&self) -> Seq<char> {
        self.version.full@
    }

    fn get_version(&self) -> (r: &String) {
        &self.version.full
    }
}

impl InProjectEnvironment {
    /// The environment for the project whose configuration was found in
    /// the current directory.  The project's pinned toolchain version, if
    /// it declares one, overrides the running build's own
    /// (`default_version`); the binary map resolves that version inside
    /// the cache rooted at `cache_root`.
    pub fn from_current_dir(
        config: Config,
        default_version: ToolchainVersion,
        cache_root: String,
    ) -> (r: InProjectEnvironment)
        ensures
            r.config == config,
            r.version.debug == default_version.debug,
            match config.dfx {
                Some(v) => r.version.full@ == v@,
                None => r.version == default_version,
            },
            r.binary_map.version@ == r.version.full@,
            r.binary_map.cache_root == cache_root,
    {
        let version = match &config.dfx {
            Some(v) => ToolchainVersion { full: v.clone(), debug: default_version.debug },
            None => default_version,
        };
        let binary_map = VersionedBinaryMap { version: version.full.clone(), cache_root };
        InProjectEnvironment { version, config, binary_map }
    }
}

/// The environment outside any project: no configuration, no client, the
/// running build's own toolchain version.
pub struct GlobalEnvironment {
    /// The toolchain version in force: the running build's own.
    pub version: ToolchainVersion,
    /// The working directory, observed at construction.
    pub current_dir: String,
    /// The binary map for the version in force.
    pub binary_map: VersionedBinaryMap,
}

impl PlatformEnv for GlobalEnvironment {
    open spec fn spec_current_dir(&self) -> Seq<char> {
        self.current_dir@
    }

    fn get_current_dir(&self) -> (r: String) {
        self.current_dir.clone()
    }
}

impl BinaryCacheEnv for GlobalEnvironment {
    open spec fn spec_is_debug(&self) -> bool {
        self.version.debug
    }

    fn is_installed(&self, cache_has_version: bool) -> (r: bool) {
        if self.version.is_debug() {
            // A debug version is never installed: it is reinstalled on
            // every run.
            false
        } else {
            cache_has_version
        }
    }
}

impl BinaryResolverEnv for GlobalEnvironment {
    open spec fn spec_binary_map(&self) -> VersionedBinaryMap {
        self.binary_map
    }

    fn get_binary_map(&self) -> (r: &VersionedBinaryMap) {
        &self.binary_map
    }
}

impl ProjectConfigEnv for GlobalEnvironment {
    open spec fn spec_config(&self) -> Option<Config> {
        None
    }

    fn is_in_project(&self) -> (r: bool) {
        false
    }

    fn get_config(&self) -> (r: Option<&Config>) {
        None
    }
}

impl ClientEnv for GlobalEnvironment {
    open spec fn spec_client(&self) -> Option<Seq<char>> {
        None
    }

    fn get_client(&self) -> (r: Option<ClientConfig>) {
        None
    }
}

impl VersionEnv for GlobalEnvironment {
    open spec fn spec_version(&self) -> Seq<char> {
        self.version.full@
    }

    fn get_version(&self) -> (r: &String) {
        &self.version.full
    }
}

impl GlobalEnvironment {
    /// The environment outside a project, working in the current directory
    /// with the running build's own toolchain version, resolved inside the
    /// cache rooted at `cache_root`.
    pub fn from_current_dir(
        current_dir: String,
        version: ToolchainVersion,
        cache_root: String,
    ) -> (r: GlobalEnvironment)
        ensures
            r.version == version,
            r.current_dir == current_dir,
            r.binary_map.version@ == version.full@,
            r.binary_map.cache_root == cache_root,
    {
        let binary_map = VersionedBinaryMap { version: version.full.clone(), cache_root };
        GlobalEnvironment { version, current_dir, binary_map }
    }
}

} // verus!

//! Environments, versions and binary resolution.

use dfx_build::cache::{
    get_binary_path_from_version, BinaryKind, ResolutionError, ToolchainResolver,
};
use dfx_build::config::{CanisterEntry, Config};
use dfx_build::env::{
    client_url, BinaryCacheEnv, BinaryMap, BinaryResolverEnv, ClientEnv, GlobalEnvironment,
    InProjectEnvironment, PlatformEnv, ProjectConfigEnv, VersionEnv, VersionedBinaryMap,
};
use dfx_build::version::dfx_version;

fn project_config() -> Config {
    Config {
        path: "/proj/dfx.json".to_string(),
        dfx: None,
        build_output: None,
        start_address: None,
        start_port: None,
        canisters: Some(vec![CanisterEntry {
            name: "alpha".to_string(),
            main: Some("src/alpha.src".to_string()),
        }]),
    }
}

#[test]
fn release_version_is_the_base_string() {
    let v = dfx_version("0.4.7", false);
    assert_eq!(v.full, "0.4.7");
    assert!(!v.is_debug());
}

#[test]
fn debug_version_carries_the_debug_tag() {
    let v = dfx_version("0.4.7", true);
    assert_eq!(v.full, "0.4.7-debug");
    assert!(v.is_debug());
}

#[test]
fn binary_paths_follow_the_cache_layout() {
    assert_eq!(
        get_binary_path_from_version("/cache", "0.4.7", "asc"),
        "/cache/0.4.7/asc"
    );
    let resolver = ToolchainResolver::new("/cache".to_string());
    let v = dfx_version("0.4.7", false);
    assert_eq!(resolver.install_root(&v), "/cache/0.4.7");
    assert_eq!(
        resolver.resolve(&v, BinaryKind::Compiler, true),
        Ok("/cache/0.4.7/asc".to_string())
    );
}

#[test]
fn missing_versions_are_not_resolved() {
    let resolver = ToolchainResolver::new("/cache".to_string());
    let v = dfx_version("0.4.7", false);
    assert_eq!(
        resolver.resolve(&v, BinaryKind::Compiler, false),
        Err(ResolutionError::NotInstalled("0.4.7".to_string()))
    );
}

#[test]
fn debug_versions_are_never_resolved_as_installed() {
    let resolver = ToolchainResolver::new("/cache".to_string());
    let v = dfx_version("0.4.7", true);
    assert_eq!(
        resolver.resolve(&v, BinaryKind::Compiler, true),
        Err(ResolutionError::NotInstalled("0.4.7-debug".to_string()))
    );
}

#[test]
fn binary_map_resolves_every_logical_binary() {
    let m = VersionedBinaryMap {
        version: "0.4.7".to_string(),
        cache_root: "/cache".to_string(),
    };
    assert_eq!(m.actorscript_compiler().binary_path, "/cache/0.4.7/asc");
    assert_eq!(m.idl_compiler().binary_path, "/cache/0.4.7/didc");
    let client = m.client();
    assert_eq!(client.nodemanager_path, "/cache/0.4.7/nodemanager");
    assert_eq!(client.client_path, "/cache/0.4.7/client");
    let pipeline = m.build_pipeline();
    assert_eq!(pipeline.compiler_path, "/cache/0.4.7/asc");
    assert_eq!(pipeline.bindgen_path, "/cache/0.4.7/didc");
}

#[test]
fn project_environment_prefers_the_pinned_version() {
    let mut config = project_config();
    config.dfx = Some("0.3.0".to_string());
    let env = InProjectEnvironment::from_current_dir(
        config,
        dfx_version("0.4.7", false),
        "/cache".to_string(),
    );
    assert_eq!(env.get_version(), "0.3.0");
    assert_eq!(env.get_binary_map().version, "0.3.0");
}

#[test]
fn project_environment_falls_back_to_the_built_in_version() {
    let env = InProjectEnvironment::from_current_dir(
        project_config(),
        dfx_version("0.4.7", false),
        "/cache".to_string(),
    );
    assert_eq!(env.get_version(), "0.4.7");
    assert!(env.is_in_project());
    assert!(env.get_config().is_some());
    assert_eq!(env.get_current_dir(), "/proj");
}

#[test]
fn debug_environment_is_never_installed() {
    let env = InProjectEnvironment::from_current_dir(
        project_config(),
        dfx_version("0.4.7", true),
        "/cache".to_string(),
    );
    // Even with the version present in the cache, a debug toolchain is
    // reinstalled on every run.
    assert!(!env.is_installed(true));
    assert!(!env.is_installed(false));
}

#[test]
fn release_environment_is_installed_when_cached() {
    let env = InProjectEnvironment::from_current_dir(
        project_config(),
        dfx_version("0.4.7", false),
        "/cache".to_string(),
    );
    assert!(env.is_installed(true));
    assert!(!env.is_installed(false));
}

#[test]
fn client_endpoint_uses_the_configured_address_and_port() {
    assert_eq!(client_url("localhost", 8080), "http://localhost:8080");
    let env = InProjectEnvironment::from_current_dir(
        project_config(),
        dfx_version("0.4.7", false),
        "/cache".to_string(),
    );
    let client = env.get_client().expect("a project serves a client");
    assert_eq!(client.url, "http://localhost:8080");

    let mut config = project_config();
    config.start_address = Some("0.0.0.0".to_string());
    config.start_port = Some(9000);
    let env = InProjectEnvironment::from_current_dir(
        config,
        dfx_version("0.4.7", false),
        "/cache".to_string(),
    );
    let client = env.get_client().expect("a project serves a client");
    assert_eq!(client.url, "http://0.0.0.0:9000");
}

#[test]
fn global_environment_has_no_project_and_no_client() {
    let env = GlobalEnvironment::from_current_dir(
        "/home/user".to_string(),
        dfx_version("0.4.7", false),
        "/cache".to_string(),
    );
    assert!(!env.is_in_project());
    assert!(env.get_config().is_none());
    assert!(env.get_client().is_none());
    assert_eq!(env.get_current_dir(), "/home/user");
    assert_eq!(env.get_version(), "0.4.7");
    assert_eq!(env.get_binary_map().version, "0.4.7");
}

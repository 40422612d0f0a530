//! The one-shot build entry point.
//!
//! Builds one source file with the toolchain binaries that an environment
//! resolves: the three artifact paths are derived from the output path by
//! extension substitution, and the three compiler commands run strictly in
//! order through the caller's executor.

use vstd::prelude::*;
use vstd::string::StringExecFns;
use crate::cache::{spec_binary_path, BinaryKind};
use crate::command::Executor;
use crate::env::BinaryResolverEnv;
use crate::pipeline::{run_post_plan, spec_plan_of, BuildJob, RunReport};
use crate::text::{spec_stem, strip_extension};

verus! {

/// Builds `input_path` once: the binary artifact goes to `output_path`,
/// and the interface description and language bindings go beside it, the
/// three paths differing only in extension.  The environment's binary map
/// names the compiler and generator to invoke; `runner` executes them.
/// The report's contract pins the commands issued and the outcome, exactly
/// as for a pipeline run.
pub fn build_file<T: BinaryResolverEnv, E: Executor>(
    env: &T,
    runner: &mut E,
    input_path: &str,
    output_path: &str,
) -> (r: RunReport)
    ensures
        run_post_plan(
            spec_plan_of(
                spec_binary_path(
                    env.spec_binary_map().cache_root@,
                    env.spec_binary_map().version@,
                    BinaryKind::Compiler.spec_name(),
                ),
                spec_binary_path(
                    env.spec_binary_map().cache_root@,
                    env.spec_binary_map().version@,
                    BinaryKind::IdlCompiler.spec_name(),
                ),
                input_path@,
                spec_stem(output_path@),
            ),
            r,
        ),
{
    let map = env.get_binary_map();
    let pipeline = map.build_pipeline();
    let job = BuildJob {
        input_path: String::from_str(input_path),
        output_stem: strip_extension(output_path),
    };
    pipeline.run(runner, &job)
}

} // verus!

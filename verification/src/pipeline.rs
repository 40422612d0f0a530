//! The three-step build pipeline.
//!
//! One build turns a source file into three artifacts derived from a common
//! output stem: the binary, the interface description and the language
//! bindings.  The pipeline first makes sure the output directory exists,
//! then issues exactly three commands, strictly in order, stopping at the
//! first failure; the contract pins down which commands are issued, with
//! which arguments, and how the reported outcome relates to them.

use vstd::prelude::*;
use vstd::string::StringExecFns;
use crate::command::{
    ActorScriptCommandBuilder,
    CommandLine,
    Executor,
    IdlCompilerCommandBuilder,
    RunOutcome,
    Stage,
};
use crate::config::CanisterEntry;
use crate::text::{path_parent, spec_join, spec_stem};

verus! {

/// One "build this file" request: an absolute source path and an absolute
/// output path without extension, from which the three artifact paths are
/// derived by fixed extension substitution.
pub struct BuildJob {
    /// The source file to build.
    pub input_path: String,
    /// The absolute output path without extension.
    pub output_stem: String,
}

/// The binary artifact path derived from an output stem.
pub open spec fn spec_output_wasm(stem: Seq<char>) -> Seq<char> {
    stem + ".wasm"@
}

/// The interface-description artifact path derived from an output stem.
pub open spec fn spec_output_idl(stem: Seq<char>) -> Seq<char> {
    stem + ".did"@
}

/// The language-binding artifact path derived from an output stem.
pub open spec fn spec_output_js(stem: Seq<char>) -> Seq<char> {
    stem + ".js"@
}

impl BuildJob {
    /// The path of the binary artifact.
    pub fn output_wasm(&self) -> (r: String)
        ensures
            r@ == spec_output_wasm(self.output_stem@),
    {
        let mut s = self.output_stem.clone();
        s.append(".wasm");
        s
    }

    /// The path of the interface-description artifact.
    pub fn output_idl(&self) -> (r: String)
        ensures
            r@ == spec_output_idl(self.output_stem@),
    {
        let mut s = self.output_stem.clone();
        s.append(".did");
        s
    }

    /// The path of the language-binding artifact.
    pub fn output_js(&self) -> (r: String)
        ensures
            r@ == spec_output_js(self.output_stem@),
    {
        let mut s = self.output_stem.clone();
        s.append(".js");
        s
    }
}

/// Why a pipeline run failed.
#[derive(PartialEq, Eq, Debug)]
pub enum BuildError {
    /// The output directory could not be created; no compiler was invoked.
    Precondition {
        /// The diagnostic reported by the environment.
        message: String,
    },
    /// An external compiler invocation exited with a non-zero status; the
    /// remaining steps were not invoked.
    Step {
        /// The step whose command failed.
        stage: Stage,
        /// The standard-error text of the failed command, verbatim.
        stderr: String,
    },
}

/// What one pipeline run did: its outcome, the commands it issued in order,
/// and how each issued command ran.
pub struct RunReport {
    /// Success, or the first failure.
    pub outcome: Result<(), BuildError>,
    /// Every command issued, in invocation order.
    pub invoked: Vec<CommandLine>,
    /// How each issued command ran, in the same order.
    pub results: Vec<RunOutcome>,
}

/// The command that compiles `input` to the binary artifact of `stem`.
pub open spec fn spec_compile_command(
    compiler: Seq<char>,
    input: Seq<char>,
    stem: Seq<char>,
) -> Seq<Seq<char>> {
    seq![compiler, input, "-o"@, spec_output_wasm(stem)]
}

/// The command that compiles `input` to the interface description of
/// `stem`.
pub open spec fn spec_interface_command(
    compiler: Seq<char>,
    input: Seq<char>,
    stem: Seq<char>,
) -> Seq<Seq<char>> {
    seq![compiler, "--idl"@, input, "-o"@, spec_output_idl(stem)]
}

/// The command that turns the interface description of `stem` into its
/// language bindings.
pub open spec fn spec_bindings_command(bindgen: Seq<char>, stem: Seq<char>) -> Seq<Seq<char>> {
    seq![bindgen, "--js"@, spec_output_idl(stem), "-o"@, spec_output_js(stem)]
}

/// The full plan of one build: the three commands, in the only order they
/// may run.
pub open spec fn spec_plan_of(
    compiler: Seq<char>,
    bindgen: Seq<char>,
    input: Seq<char>,
    stem: Seq<char>,
) -> Seq<Seq<Seq<char>>> {
    seq![
        spec_compile_command(compiler, input, stem),
        spec_interface_command(compiler, input, stem),
        spec_bindings_command(bindgen, stem),
    ]
}

/// Everything a pipeline run promises about its report, given the plan it
/// was to execute.
///
/// The issued commands are a prefix of the plan; every issued command but
/// the last ran successfully; the run succeeds exactly when all three
/// steps ran and the last one succeeded; a step failure is reported with
/// the stage and standard-error text of the last issued command; and a
/// precondition failure means no command was issued at all.
pub open spec fn run_post_plan(plan: Seq<Seq<Seq<char>>>, r: RunReport) -> bool {
    &&& r.invoked@.len() <= 3
    &&& r.results@.len() == r.invoked@.len()
    &&& (forall|i: int| 0 <= i < r.invoked@.len() ==> r.invoked@[i]@ == plan[i])
    &&& (forall|i: int| 0 <= i < r.invoked@.len() - 1 ==> r.results@[i].success)
    &&& (r.outcome is Ok <==> (r.invoked@.len() == 3 && r.results@[2].success))
    &&& ((r.outcome matches Err(BuildError::Step { .. })) <==> (r.invoked@.len() >= 1
        && !r.results@[r.invoked@.len() - 1].success))
    &&& (r.outcome matches Err(BuildError::Step { stage, stderr }) ==> (stage == spec_stage_of(
        r.invoked@.len() - 1,
    ) && stderr@ == r.results@[r.invoked@.len() - 1].stderr@))
    &&& ((r.outcome matches Err(BuildError::Precondition { .. })) <==> r.invoked@.len() == 0)
}

/// The stage performed by the step at position `i` of the plan.
pub open spec fn spec_stage_of(i: int) -> Stage {
    if i == 0 {
        Stage::CompileBinary
    } else if i == 1 {
        Stage::CompileInterface
    } else {
        Stage::GenerateBindings
    }
}

/// Composes the three compiler invocations of one build into a single
/// atomic operation.  Holds the resolved binary paths of the source
/// compiler and of the interface-binding generator.
pub struct BuildPipeline {
    /// The resolved path of the source compiler.
    pub compiler_path: String,
    /// The resolved path of the interface-binding generator.
    pub bindgen_path: String,
}

impl BuildPipeline {
    /// A pipeline that invokes the compiler at `compiler_path` and the
    /// binding generator at `bindgen_path`.
    pub fn new(compiler_path: String, bindgen_path: String) -> (r: Self)
        ensures
            r.compiler_path == compiler_path,
            r.bindgen_path == bindgen_path,
    {
        BuildPipeline { compiler_path, bindgen_path }
    }

    /// The first command: compile the source file to the binary artifact.
    pub open spec fn spec_step_binary(self, job: BuildJob) -> Seq<Seq<char>> {
        spec_compile_command(self.compiler_path@, job.input_path@, job.output_stem@)
    }

    /// The second command: compile the source file to the
    /// interface-description artifact.
    pub open spec fn spec_step_interface(self, job: BuildJob) -> Seq<Seq<char>> {
        spec_interface_command(self.compiler_path@, job.input_path@, job.output_stem@)
    }

    /// The third command: turn the interface description into language
    /// bindings.
    pub open spec fn spec_step_bindings(self, job: BuildJob) -> Seq<Seq<char>> {
        spec_bindings_command(self.bindgen_path@, job.output_stem@)
    }

    /// The full plan of one build: the three commands, in the only order
    /// they may run.
    pub open spec fn spec_plan(self, job: BuildJob) -> Seq<Seq<Seq<char>>> {
        spec_plan_of(self.compiler_path@, self.bindgen_path@, job.input_path@, job.output_stem@)
    }

    /// Everything [`BuildPipeline::run`] promises about its report.
    pub open spec fn run_post(self, job: BuildJob, r: RunReport) -> bool {
        run_post_plan(self.spec_plan(job), r)
    }

    /// Builds `job`: ensures the output directory exists, then executes the
    /// three steps strictly in order — binary, interface description,
    /// bindings — re-running all of them unconditionally and stopping at
    /// the first failure.
    pub fn run<E: Executor>(&self, runner: &mut E, job: &BuildJob) -> (r: RunReport)
        ensures
            self.run_post(*job, r),
    {
        let mut invoked: Vec<CommandLine> = Vec::new();
        let mut results: Vec<RunOutcome> = Vec::new();

        let out_dir = path_parent(job.output_stem.as_str());
        match runner.ensure_dir(&out_dir) {
            Err(message) => {
                return RunReport {
                    outcome: Err(BuildError::Precondition { message }),
                    invoked,
                    results,
                };
            },
            Ok(_) => {},
        }

        // Step one: source to binary artifact.
        let mut b = ActorScriptCommandBuilder::new(self.compiler_path.clone());
        b.input(job.input_path.clone());
        b.output(job.output_wasm());
        let cmd = b.command_line();
        proof {
            assert(cmd@ =~= self.spec_step_binary(*job));
        }
        let outcome = runner.execute(&cmd);
        let ok = outcome.success;
        let diag = outcome.stderr.clone();
        invoked.push(cmd);
        results.push(outcome);
        if !ok {
            return RunReport {
                outcome: Err(BuildError::Step { stage: Stage::CompileBinary, stderr: diag }),
                invoked,
                results,
            };
        }

        // Step two: source to interface description.
        let mut b = ActorScriptCommandBuilder::new(self.compiler_path.clone());
        b.build_idl();
        b.input(job.input_path.clone());
        b.output(job.output_idl());
        let cmd = b.command_line();
        proof {
            assert(cmd@ =~= self.spec_step_interface(*job));
        }
        let outcome = runner.execute(&cmd);
        let ok = outcome.success;
        let diag = outcome.stderr.clone();
        invoked.push(cmd);
        results.push(outcome);
        if !ok {
            return RunReport {
                outcome: Err(BuildError::Step { stage: Stage::CompileInterface, stderr: diag }),
                invoked,
                results,
            };
        }

        // Step three: interface description to language bindings.
        let mut b = IdlCompilerCommandBuilder::new(self.bindgen_path.clone());
        b.build_js();
        b.input(job.output_idl());
        b.output(job.output_js());
        let cmd = b.command_line();
        proof {
            assert(cmd@ =~= self.spec_step_bindings(*job));
        }
        let outcome = runner.execute(&cmd);
        let ok = outcome.success;
        let diag = outcome.stderr.clone();
        invoked.push(cmd);
        results.push(outcome);
        if !ok {
            return RunReport {
                outcome: Err(BuildError::Step { stage: Stage::GenerateBindings, stderr: diag }),
                invoked,
                results,
            };
        }

        RunReport { outcome: Ok(()), invoked, results }
    }

}

/// A successful run issued exactly the three planned commands, in plan
/// order, with exactly the planned arguments.
pub proof fn lemma_success_runs_full_plan(p: BuildPipeline, job: BuildJob, r: RunReport)
    requires
        p.run_post(job, r),
        r.outcome is Ok,
    ensures
        r.invoked@.len() == 3,
        r.invoked@[0]@ == p.spec_step_binary(job),
        r.invoked@[1]@ == p.spec_step_interface(job),
        r.invoked@[2]@ == p.spec_step_bindings(job),
{
    assert(r.invoked@[0]@ == p.spec_plan(job)[0]);
    assert(r.invoked@[1]@ == p.spec_plan(job)[1]);
    assert(r.invoked@[2]@ == p.spec_plan(job)[2]);
}

/// A failure of the interface-description step means exactly the first two
/// commands were issued, so the binding generator was never invoked.
pub proof fn lemma_interface_failure_stops_pipeline(p: BuildPipeline, job: BuildJob, r: RunReport)
    requires
        p.run_post(job, r),
        r.outcome matches Err(BuildError::Step { stage: Stage::CompileInterface, .. }),
    ensures
        r.invoked@.len() == 2,
        forall|i: int| 0 <= i < r.invoked@.len() ==> r.invoked@[i]@ != p.spec_step_bindings(job),
{
    assert(r.invoked@.len() == 2) by {
        let n = r.invoked@.len() as int;
        assert(spec_stage_of(n - 1) == Stage::CompileInterface);
        assert(1 <= n <= 3);
    }
    assert forall|i: int| 0 <= i < r.invoked@.len() implies r.invoked@[i]@
        != p.spec_step_bindings(job) by {
        reveal_strlit("--idl");
        reveal_strlit("--js");
        assert(r.invoked@[i]@ == p.spec_plan(job)[i]);
        if i == 0 {
            assert(p.spec_step_binary(job).len() == 4);
            assert(p.spec_step_bindings(job).len() == 5);
        } else {
            assert(p.spec_step_interface(job)[1] == "--idl"@);
            assert(p.spec_step_bindings(job)[1] == "--js"@);
            assert("--idl"@.len() == 5);
            assert("--js"@.len() == 4);
        }
    }
}

/// The caller-supplied progress interface of a watched build: invoked
/// synchronously on the building thread before a build starts and after it
/// finishes.  Callbacks that share state across watchers must synchronize
/// it themselves.
pub trait BuildNotifier {
    /// A build of `input_path` is about to start.
    fn on_start(&mut self, input_path: &String);

    /// The build finished; `output_path` is the binary artifact.
    fn on_done(&mut self, output_path: &String);

    /// The build failed with `error`; watching continues.
    fn on_error(&mut self, error: &BuildError);
}

/// Runs one build of `job` and reports it through `notifier`: `on_start`
/// before the pipeline runs, then `on_done` with the binary artifact path
/// on success or `on_error` with the failure.  The build's outcome is
/// returned but never propagated as an error: a failed build does not stop
/// a watcher.
pub fn build_and_notify<E: Executor, N: BuildNotifier>(
    pipeline: &BuildPipeline,
    runner: &mut E,
    notifier: &mut N,
    job: &BuildJob,
) -> (r: RunReport)
    ensures
        pipeline.run_post(*job, r),
{
    notifier.on_start(&job.input_path);
    let report = pipeline.run(runner, job);
    match &report.outcome {
        Ok(_) => {
            let out = job.output_wasm();
            notifier.on_done(&out);
        },
        Err(e) => {
            notifier.on_error(e);
        },
    }
    report
}

/// The build job for one canister: the source file under the project root,
/// and an output stem under the build directory, derived from the source
/// path by dropping its extension.
pub fn job_for_canister(project_root: &str, build_output: &str, main: &str) -> (r: BuildJob)
    ensures
        r.input_path@ == spec_join(project_root@, main@),
        r.output_stem@ == spec_stem(spec_join(spec_join(project_root@, build_output@), main@)),
{
    let input_path = crate::text::path_join(project_root, main);
    let build_root = crate::text::path_join(project_root, build_output);
    let out = crate::text::path_join(build_root.as_str(), main);
    let output_stem = crate::text::strip_extension(out.as_str());
    BuildJob { input_path, output_stem }
}

/// The input path and output stem of every canister of `cs` that declares
/// a main source file, in configuration order.
pub open spec fn spec_planned_jobs(cs: Seq<CanisterEntry>, root: Seq<char>, out: Seq<char>) -> Seq<
    (Seq<char>, Seq<char>),
>
    decreases cs.len(),
{
    if cs.len() == 0 {
        Seq::<(Seq<char>, Seq<char>)>::empty()
    } else {
        let rest = spec_planned_jobs(cs.skip(1), root, out);
        match cs[0].main {
            Some(m) => seq![
                (spec_join(root, m@), spec_stem(spec_join(spec_join(root, out), m@))),
            ] + rest,
            None => rest,
        }
    }
}

/// The build jobs of the canisters of `cs` from position `j` on.
fn plan_jobs_from(cs: &Vec<CanisterEntry>, root: &str, out: &str, j: usize) -> (r: Vec<BuildJob>)
    requires
        j <= cs@.len(),
    ensures
        ({
            let plan = spec_planned_jobs(cs@.skip(j as int), root@, out@);
            &&& r@.len() == plan.len()
            &&& (forall|i: int|
                0 <= i < r@.len() ==> (r@[i].input_path@ == plan[i].0 && r@[i].output_stem@
                    == plan[i].1))
        }),
    decreases cs@.len() - j,
{
    if j == cs.len() {
        let r: Vec<BuildJob> = Vec::new();
        proof {
            assert(cs@.skip(j as int) =~= Seq::<CanisterEntry>::empty());
        }
        r
    } else {
        let mut rest = plan_jobs_from(cs, root, out, j + 1);
        proof {
            assert(cs@.skip(j as int)[0] == cs@[j as int]);
            assert(cs@.skip(j as int).skip(1) =~= cs@.skip(j as int + 1));
        }
        match &cs[j].main {
            Some(m) => {
                let job = job_for_canister(root, out, m.as_str());
                rest.insert(0, job);
                rest
            },
            None => rest,
        }
    }
}

/// The build jobs of a project: one per canister that declares a main
/// source file, in configuration order, with the source path resolved
/// against the project root and the output stem placed under the build
/// directory.  A configuration without canisters plans nothing.
pub fn plan_jobs(cs: &Vec<CanisterEntry>, project_root: &str, build_output: &str) -> (r: Vec<
    BuildJob,
>)
    ensures
        ({
            let plan = spec_planned_jobs(cs@, project_root@, build_output@);
            &&& r@.len() == plan.len()
            &&& (forall|i: int|
                0 <= i < r@.len() ==> (r@[i].input_path@ == plan[i].0 && r@[i].output_stem@
                    == plan[i].1))
        }),
{
    let r = plan_jobs_from(cs, project_root, build_output, 0);
    proof {
        assert(cs@.skip(0) =~= cs@);
    }
    r
}

} // verus!

//! The build pipeline: command order, argument grammar, failure handling.

use dfx_build::command::{CommandLine, Executor, RunOutcome, Stage};
use dfx_build::config::Config;
use dfx_build::env::InProjectEnvironment;
use dfx_build::oneshot::build_file;
use dfx_build::pipeline::{BuildError, BuildJob, BuildPipeline};
use dfx_build::version::dfx_version;

/// An executor that records every call and answers from a script: which
/// command index fails (with what standard-error text), and whether
/// directory creation fails.
struct FakeExecutor {
    dirs: Vec<String>,
    existing_dirs: Vec<String>,
    dir_error: Option<String>,
    fail_on: Option<(usize, String)>,
    lines: Vec<Vec<String>>,
}

impl FakeExecutor {
    fn all_ok() -> FakeExecutor {
        FakeExecutor {
            dirs: Vec::new(),
            existing_dirs: Vec::new(),
            dir_error: None,
            fail_on: None,
            lines: Vec::new(),
        }
    }

    fn failing_step(index: usize, stderr: &str) -> FakeExecutor {
        let mut e = FakeExecutor::all_ok();
        e.fail_on = Some((index, stderr.to_string()));
        e
    }
}

impl Executor for FakeExecutor {
    fn ensure_dir(&mut self, path: &String) -> Result<(), String> {
        self.dirs.push(path.clone());
        if let Some(msg) = &self.dir_error {
            return Err(msg.clone());
        }
        // Like the real filesystem primitive, creating a directory that
        // already exists succeeds.
        if !self.existing_dirs.contains(path) {
            self.existing_dirs.push(path.clone());
        }
        Ok(())
    }

    fn execute(&mut self, cmd: &CommandLine) -> RunOutcome {
        let index = self.lines.len();
        self.lines.push(cmd.parts.clone());
        match &self.fail_on {
            Some((i, msg)) if *i == index => {
                RunOutcome { success: false, stderr: msg.clone() }
            }
            _ => RunOutcome { success: true, stderr: String::new() },
        }
    }
}

fn line(parts: &[&str]) -> Vec<String> {
    parts.iter().map(|p| p.to_string()).collect()
}

fn main_job() -> BuildJob {
    BuildJob {
        input_path: "main.src".to_string(),
        output_stem: "build/main".to_string(),
    }
}

#[test]
fn successful_run_invokes_three_commands_in_order() {
    let p = BuildPipeline::new("compiler".to_string(), "bindgen".to_string());
    let mut ex = FakeExecutor::all_ok();
    let report = p.run(&mut ex, &main_job());
    assert!(report.outcome.is_ok());
    assert_eq!(ex.lines.len(), 3);
    assert_eq!(ex.lines[0], line(&["compiler", "main.src", "-o", "build/main.wasm"]));
    assert_eq!(
        ex.lines[1],
        line(&["compiler", "--idl", "main.src", "-o", "build/main.did"])
    );
    assert_eq!(
        ex.lines[2],
        line(&["bindgen", "--js", "build/main.did", "-o", "build/main.js"])
    );
    assert_eq!(ex.dirs, vec!["build".to_string()]);
    assert_eq!(report.invoked.len(), 3);
    for (i, cmd) in report.invoked.iter().enumerate() {
        assert_eq!(cmd.parts, ex.lines[i]);
    }
}

#[test]
fn compiler_failure_reports_first_stage_and_stops() {
    let p = BuildPipeline::new("compiler".to_string(), "bindgen".to_string());
    let mut ex = FakeExecutor::failing_step(0, "syntax error");
    let report = p.run(&mut ex, &main_job());
    match report.outcome {
        Err(BuildError::Step { stage, stderr }) => {
            assert_eq!(stage, Stage::CompileBinary);
            assert_eq!(stderr, "syntax error");
        }
        other => panic!("expected a step failure, got {:?}", other),
    }
    // Neither the interface description nor the bindings command ran.
    assert_eq!(ex.lines.len(), 1);
    assert_eq!(ex.lines[0], line(&["compiler", "main.src", "-o", "build/main.wasm"]));
}

#[test]
fn interface_failure_skips_bindings() {
    let p = BuildPipeline::new("compiler".to_string(), "bindgen".to_string());
    let mut ex = FakeExecutor::failing_step(1, "bad type");
    let report = p.run(&mut ex, &main_job());
    match report.outcome {
        Err(BuildError::Step { stage, stderr }) => {
            assert_eq!(stage, Stage::CompileInterface);
            assert_eq!(stderr, "bad type");
        }
        other => panic!("expected a step failure, got {:?}", other),
    }
    assert_eq!(ex.lines.len(), 2);
    for l in &ex.lines {
        assert!(!l.contains(&"--js".to_string()));
        assert_ne!(l[0], "bindgen");
    }
}

#[test]
fn directory_failure_aborts_before_any_command() {
    let p = BuildPipeline::new("compiler".to_string(), "bindgen".to_string());
    let mut ex = FakeExecutor::all_ok();
    ex.dir_error = Some("permission denied".to_string());
    let report = p.run(&mut ex, &main_job());
    match report.outcome {
        Err(BuildError::Precondition { message }) => {
            assert_eq!(message, "permission denied");
        }
        other => panic!("expected a precondition failure, got {:?}", other),
    }
    assert!(ex.lines.is_empty());
    assert!(report.invoked.is_empty());
}

#[test]
fn repeated_runs_tolerate_existing_output_directory() {
    let p = BuildPipeline::new("compiler".to_string(), "bindgen".to_string());
    let mut ex = FakeExecutor::all_ok();
    let first = p.run(&mut ex, &main_job());
    assert!(first.outcome.is_ok());
    assert_eq!(ex.existing_dirs, vec!["build".to_string()]);
    // The directory now exists; a second run with the same output stem
    // must not fail on directory creation.
    let second = p.run(&mut ex, &main_job());
    assert!(second.outcome.is_ok());
    assert_eq!(ex.dirs, vec!["build".to_string(), "build".to_string()]);
    assert_eq!(ex.lines.len(), 6);
}

#[test]
fn build_file_wasm() {
    // Echoes the commands instead of running compilers, to check they are
    // invoked in order with the right arguments.
    let p = BuildPipeline::new("asc".to_string(), "didc".to_string());
    let job = BuildJob {
        input_path: "/in/file.as".to_string(),
        output_stem: "/out/file".to_string(),
    };
    let mut ex = FakeExecutor::all_ok();
    let report = p.run(&mut ex, &job);
    assert!(report.outcome.is_ok());
    let echoed: Vec<String> = ex.lines.iter().map(|l| l.join(" ")).collect();
    assert_eq!(
        echoed,
        vec![
            "asc /in/file.as -o /out/file.wasm".to_string(),
            "asc --idl /in/file.as -o /out/file.did".to_string(),
            "didc --js /out/file.did -o /out/file.js".to_string(),
        ]
    );
}

#[test]
fn artifact_paths_substitute_extensions() {
    let job = main_job();
    assert_eq!(job.output_wasm(), "build/main.wasm");
    assert_eq!(job.output_idl(), "build/main.did");
    assert_eq!(job.output_js(), "build/main.js");
}

#[test]
fn one_shot_build_uses_the_resolved_toolchain() {
    let config = Config {
        path: "/proj/dfx.json".to_string(),
        dfx: None,
        build_output: None,
        start_address: None,
        start_port: None,
        canisters: None,
    };
    let env = InProjectEnvironment::from_current_dir(
        config,
        dfx_version("1.0", false),
        "/c".to_string(),
    );
    let mut ex = FakeExecutor::all_ok();
    let report = build_file(&env, &mut ex, "/in/file.as", "/out/file.wasm");
    assert!(report.outcome.is_ok());
    assert_eq!(ex.dirs, vec!["/out".to_string()]);
    assert_eq!(ex.lines[0], line(&["/c/1.0/asc", "/in/file.as", "-o", "/out/file.wasm"]));
    assert_eq!(
        ex.lines[1],
        line(&["/c/1.0/asc", "--idl", "/in/file.as", "-o", "/out/file.did"])
    );
    assert_eq!(
        ex.lines[2],
        line(&["/c/1.0/didc", "--js", "/out/file.did", "-o", "/out/file.js"])
    );
}

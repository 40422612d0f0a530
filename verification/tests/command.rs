//! Command builders: argument order and exit interpretation.

use dfx_build::command::{
    interpret_outcome, ActorScriptCommandBuilder, ClientCommandBuilder, CommandLine, Executor,
    IdlCompilerCommandBuilder, RunOutcome, Stage,
};

fn line(parts: &[&str]) -> Vec<String> {
    parts.iter().map(|p| p.to_string()).collect()
}

#[test]
fn compiler_command_orders_input_then_output() {
    let mut b = ActorScriptCommandBuilder::new("asc".to_string());
    b.input("main.src".to_string()).output("main.wasm".to_string());
    assert_eq!(b.command_line().parts, line(&["asc", "main.src", "-o", "main.wasm"]));
}

#[test]
fn interface_flag_precedes_the_input() {
    let mut b = ActorScriptCommandBuilder::new("asc".to_string());
    b.input("main.src".to_string())
        .output("main.did".to_string())
        .build_idl();
    assert_eq!(
        b.command_line().parts,
        line(&["asc", "--idl", "main.src", "-o", "main.did"])
    );
}

#[test]
fn bindings_flag_precedes_the_input() {
    let mut b = IdlCompilerCommandBuilder::new("didc".to_string());
    b.build_js()
        .input("main.did".to_string())
        .output("main.js".to_string());
    assert_eq!(
        b.command_line().parts,
        line(&["didc", "--js", "main.did", "-o", "main.js"])
    );
}

#[test]
fn unset_parts_are_omitted() {
    let b = ActorScriptCommandBuilder::new("asc".to_string());
    assert_eq!(b.command_line().parts, line(&["asc"]));
    let mut b = IdlCompilerCommandBuilder::new("didc".to_string());
    b.input("main.did".to_string());
    assert_eq!(b.command_line().parts, line(&["didc", "main.did"]));
}

#[test]
fn client_command_is_nodemanager_with_client_argument() {
    let b = ClientCommandBuilder::new("/c/1.0/nodemanager".to_string(), "/c/1.0/client".to_string());
    assert_eq!(
        b.command_line().parts,
        line(&["/c/1.0/nodemanager", "/c/1.0/client"])
    );
}

#[test]
fn zero_exit_is_success() {
    let r = interpret_outcome(
        Stage::CompileBinary,
        RunOutcome { success: true, stderr: String::new() },
    );
    assert!(r.is_ok());
}

#[test]
fn nonzero_exit_carries_stage_and_stderr() {
    let r = interpret_outcome(
        Stage::GenerateBindings,
        RunOutcome { success: false, stderr: "no such import".to_string() },
    );
    match r {
        Err(e) => {
            assert_eq!(e.stage, Stage::GenerateBindings);
            assert_eq!(e.stderr, "no such import");
        }
        Ok(()) => panic!("a failed command must not report success"),
    }
}

/// An executor that always fails with a fixed diagnostic.
struct AlwaysFails;

impl Executor for AlwaysFails {
    fn ensure_dir(&mut self, _path: &String) -> Result<(), String> {
        Ok(())
    }

    fn execute(&mut self, _cmd: &CommandLine) -> RunOutcome {
        RunOutcome { success: false, stderr: "unknown option".to_string() }
    }
}

#[test]
fn builder_exec_translates_failure() {
    let mut b = ActorScriptCommandBuilder::new("asc".to_string());
    b.input("main.src".to_string()).output("main.did".to_string()).build_idl();
    let mut ex = AlwaysFails;
    match b.exec(&mut ex) {
        Err(e) => {
            assert_eq!(e.stage, Stage::CompileInterface);
            assert_eq!(e.stderr, "unknown option");
        }
        Ok(()) => panic!("a failed command must not report success"),
    }
}

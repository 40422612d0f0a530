//! External compiler invocations.
//!
//! A builder accumulates the input path, the output path and the feature
//! flags of one external compiler call, then renders them as a command line
//! whose argument order mirrors the external tool's interface and must not
//! be reordered.  Running the command is a capability of the caller: the
//! library decides what to run, an [`Executor`] runs it and reports how the
//! process exited.

use vstd::prelude::*;
use vstd::string::StringExecFns;

verus! {

/// One step of the build pipeline.
#[derive(Clone, Copy, PartialEq, Eq, Structural, Debug)]
pub enum Stage {
    /// Compiling the source file to the binary artifact.
    CompileBinary,
    /// Compiling the source file to the interface-description artifact.
    CompileInterface,
    /// Turning the interface description into language bindings.
    GenerateBindings,
}

/// A single external command: the binary to run and its arguments, in order.
pub struct CommandLine {
    /// The binary path followed by the arguments, in invocation order.
    pub parts: Vec<String>,
}

impl View for CommandLine {
    type V = Seq<Seq<char>>;

    open spec fn view(&self) -> Seq<Seq<char>> {
        self.parts@.map_values(|s: String| s@)
    }
}

/// How an external command ran: whether it exited successfully, and the
/// standard-error text it produced.  Standard output carries no meaning for
/// success or failure.
pub struct RunOutcome {
    /// True when the process exited with status zero.
    pub success: bool,
    /// The captured standard-error text.
    pub stderr: String,
}

/// One external compiler invocation exited with a non-zero status.
#[derive(PartialEq, Eq, Debug)]
pub struct StepError {
    /// The pipeline step whose command failed.
    pub stage: Stage,
    /// The standard-error text of the failed command, verbatim.
    pub stderr: String,
}

/// The caller-supplied capability that performs external effects: running a
/// command synchronously, and creating an output directory.  The library
/// states what it does for every outcome an executor may report.
pub trait Executor {
    /// Creates the directory `path` together with its missing ancestors,
    /// succeeding when it already exists; on failure, returns a diagnostic.
    fn ensure_dir(&mut self, path: &String) -> Result<(), String>;

    /// Runs `cmd` synchronously, blocking until the process exits, and
    /// reports its exit status and captured standard error.
    fn execute(&mut self, cmd: &CommandLine) -> RunOutcome;
}

/// Translates how a command ran into the step's result: exit status zero is
/// success, anything else fails the stage with the standard-error text as
/// the diagnostic.
pub fn interpret_outcome(stage: Stage, outcome: RunOutcome) -> (r: Result<(), StepError>)
    ensures
        outcome.success ==> r is Ok,
        !outcome.success ==> (r matches Err(e) && e.stage == stage && e.stderr@
            == outcome.stderr@),
{
    if outcome.success {
        Ok(())
    } else {
        Err(StepError { stage, stderr: outcome.stderr })
    }
}

/// Builds one invocation of the source compiler: it compiles a source file
/// to the binary artifact or, with the interface flag, to the
/// interface-description artifact.
pub struct ActorScriptCommandBuilder {
    /// The resolved path of the compiler binary.
    pub binary_path: String,
    /// The source file to compile.
    pub input_path: Option<String>,
    /// Where the artifact is written.
    pub output_path: Option<String>,
    /// Whether to emit the interface description instead of the binary.
    pub idl: bool,
}

impl ActorScriptCommandBuilder {
    /// The command line this builder renders: the binary, the interface
    /// flag if set, the input, then `-o` and the output.
    pub open spec fn spec_command_line(self) -> Seq<Seq<char>> {
        seq![self.binary_path@] + (if self.idl {
            seq!["--idl"@]
        } else {
            Seq::<Seq<char>>::empty()
        }) + (match self.input_path {
            Some(i) => seq![i@],
            None => Seq::<Seq<char>>::empty(),
        }) + (match self.output_path {
            Some(o) => seq!["-o"@, o@],
            None => Seq::<Seq<char>>::empty(),
        })
    }

    /// The pipeline stage an invocation of this builder performs.
    pub open spec fn spec_stage(self) -> Stage {
        if self.idl {
            Stage::CompileInterface
        } else {
            Stage::CompileBinary
        }
    }

    /// A builder for the compiler at `binary_path`, with no input, no
    /// output and no flags yet.
    pub fn new(binary_path: String) -> (r: Self)
        ensures
            r.binary_path == binary_path,
            r.input_path is None,
            r.output_path is None,
            !r.idl,
    {
        ActorScriptCommandBuilder { binary_path, input_path: None, output_path: None, idl: false }
    }

    /// Sets the source file to compile.
    pub fn input(&mut self, p: String) -> (r: &mut Self)
        ensures
            (*r).input_path == Some(p),
            (*r).binary_path == old(self).binary_path,
            (*r).output_path == old(self).output_path,
            (*r).idl == old(self).idl,
            *final(self) == *final(r),
    {
        self.input_path = Some(p);
        self
    }

    /// Sets where the artifact is written.
    pub fn output(&mut self, p: String) -> (r: &mut Self)
        ensures
            (*r).output_path == Some(p),
            (*r).binary_path == old(self).binary_path,
            (*r).input_path == old(self).input_path,
            (*r).idl == old(self).idl,
            *final(self) == *final(r),
    {
        self.output_path = Some(p);
        self
    }

    /// Asks for the interface description instead of the binary artifact.
    pub fn build_idl(&mut self) -> (r: &mut Self)
        ensures
            (*r).idl,
            (*r).binary_path == old(self).binary_path,
            (*r).input_path == old(self).input_path,
            (*r).output_path == old(self).output_path,
            *final(self) == *final(r),
    {
        self.idl = true;
        self
    }

    /// Renders the accumulated invocation as a command line.
    pub fn command_line(&self) -> (r: CommandLine)
        ensures
            r@ == self.spec_command_line(),
    {
        let mut parts: Vec<String> = Vec::new();
        parts.push(self.binary_path.clone());
        if self.idl {
            parts.push(flag_idl());
        }
        if let Some(i) = &self.input_path {
            parts.push(i.clone());
        }
        if let Some(o) = &self.output_path {
            parts.push(flag_output());
            parts.push(o.clone());
        }
        let r = CommandLine { parts };
        proof {
            assert(r@ =~= self.spec_command_line());
        }
        r
    }

    /// Runs the accumulated invocation through `runner` and interprets the
    /// exit: a failure carries this builder's stage and the process's
    /// standard-error text.
    pub fn exec<E: Executor>(&self, runner: &mut E) -> (r: Result<(), StepError>)
        ensures
            r matches Err(e) ==> e.stage == self.spec_stage(),
    {
        let cmd = self.command_line();
        let outcome = runner.execute(&cmd);
        let stage = if self.idl {
            Stage::CompileInterface
        } else {
            Stage::CompileBinary
        };
        interpret_outcome(stage, outcome)
    }
}

/// Builds one invocation of the interface-description compiler: it turns an
/// interface description into language bindings when the bindings flag is
/// set.
pub struct IdlCompilerCommandBuilder {
    /// The resolved path of the interface-description compiler binary.
    pub binary_path: String,
    /// The interface description to read.
    pub input_path: Option<String>,
    /// Where the bindings are written.
    pub output_path: Option<String>,
    /// Whether to emit language bindings.
    pub js: bool,
}

impl IdlCompilerCommandBuilder {
    /// The command line this builder renders: the binary, the bindings flag
    /// if set, the input, then `-o` and the output.
    pub open spec fn spec_command_line(self) -> Seq<Seq<char>> {
        seq![self.binary_path@] + (if self.js {
            seq!["--js"@]
        } else {
            Seq::<Seq<char>>::empty()
        }) + (match self.input_path {
            Some(i) => seq![i@],
            None => Seq::<Seq<char>>::empty(),
        }) + (match self.output_path {
            Some(o) => seq!["-o"@, o@],
            None => Seq::<Seq<char>>::empty(),
        })
    }

    /// A builder for the interface-description compiler at `binary_path`.
    pub fn new(binary_path: String) -> (r: Self)
        ensures
            r.binary_path == binary_path,
            r.input_path is None,
            r.output_path is None,
            !r.js,
    {
        IdlCompilerCommandBuilder { binary_path, input_path: None, output_path: None, js: false }
    }

    /// Sets the interface description to read.
    pub fn input(&mut self, p: String) -> (r: &mut Self)
        ensures
            (*r).input_path == Some(p),
            (*r).binary_path == old(self).binary_path,
            (*r).output_path == old(self).output_path,
            (*r).js == old(self).js,
            *final(self) == *final(r),
    {
        self.input_path = Some(p);
        self
    }

    /// Sets where the bindings are written.
    pub fn output(&mut self, p: String) -> (r: &mut Self)
        ensures
            (*r).output_path == Some(p),
            (*r).binary_path == old(self).binary_path,
            (*r).input_path == old(self).input_path,
            (*r).js == old(self).js,
            *final(self) == *final(r),
    {
        self.output_path = Some(p);
        self
    }

    /// Asks for language bindings.
    pub fn build_js(&mut self) -> (r: &mut Self)
        ensures
            (*r).js,
            (*r).binary_path == old(self).binary_path,
            (*r).input_path == old(self).input_path,
            (*r).output_path == old(self).output_path,
            *final(self) == *final(r),
    {
        self.js = true;
        self
    }

    /// Renders the accumulated invocation as a command line.
    pub fn command_line(&self) -> (r: CommandLine)
        ensures
            r@ == self.spec_command_line(),
    {
        let mut parts: Vec<String> = Vec::new();
        parts.push(self.binary_path.clone());
        if self.js {
            parts.push(flag_js());
        }
        if let Some(i) = &self.input_path {
            parts.push(i.clone());
        }
        if let Some(o) = &self.output_path {
            parts.push(flag_output());
            parts.push(o.clone());
        }
        let r = CommandLine { parts };
        proof {
            assert(r@ =~= self.spec_command_line());
        }
        r
    }

    /// Runs the accumulated invocation through `runner`; a failure carries
    /// the bindings stage and the process's standard-error text.
    pub fn exec<E: Executor>(&self, runner: &mut E) -> (r: Result<(), StepError>)
        ensures
            r matches Err(e) ==> e.stage == Stage::GenerateBindings,
    {
        let cmd = self.command_line();
        let outcome = runner.execute(&cmd);
        interpret_outcome(Stage::GenerateBindings, outcome)
    }
}

/// Builds the invocation that starts the client under its node manager.
pub struct ClientCommandBuilder {
    /// The resolved path of the node-manager binary.
    pub nodemanager_path: String,
    /// The resolved path of the client binary.
    pub client_path: String,
}

impl ClientCommandBuilder {
    /// A builder for the node manager at `nodemanager_path` hosting the
    /// client at `client_path`.
    pub fn new(nodemanager_path: String, client_path: String) -> (r: Self)
        ensures
            r.nodemanager_path == nodemanager_path,
            r.client_path == client_path,
    {
        ClientCommandBuilder { nodemanager_path, client_path }
    }

    /// The command line that starts the client: the node manager with the
    /// client path as its single argument.
    pub fn command_line(&self) -> (r: CommandLine)
        ensures
            r@ == seq![self.nodemanager_path@, self.client_path@],
    {
        let mut parts: Vec<String> = Vec::new();
        parts.push(self.nodemanager_path.clone());
        parts.push(self.client_path.clone());
        let r = CommandLine { parts };
        proof {
            assert(r@ =~= seq![self.nodemanager_path@, self.client_path@]);
        }
        r
    }
}

/// The flag that asks the compiler for the interface description.
fn flag_idl() -> (r: String)
    ensures
        r@ == "--idl"@,
{
    new_strlit_string("--idl")
}

/// The flag that asks the interface-description compiler for bindings.
fn flag_js() -> (r: String)
    ensures
        r@ == "--js"@,
{
    new_strlit_string("--js")
}

/// The flag that precedes an output path.
fn flag_output() -> (r: String)
    ensures
        r@ == "-o"@,
{
    new_strlit_string("-o")
}

/// An owned copy of a string slice.
fn new_strlit_string(s: &str) -> (r: String)
    ensures
        r@ == s@,
{
    String::from_str(s)
}

} // verus!

//! The watch worker: immediate first build, coalescing, cancellation.

use dfx_build::command::{CommandLine, Executor, RunOutcome};
use dfx_build::pipeline::{build_and_notify, BuildError, BuildJob, BuildNotifier, BuildPipeline};
use dfx_build::watch::{WatchAction, WatchEvent, WatchWorker};

#[test]
fn start_triggers_exactly_one_immediate_build() {
    let mut w = WatchWorker::new(80);
    assert_eq!(w.start(), WatchAction::Rebuild);
}

#[test]
fn change_notifications_alone_do_not_rebuild() {
    let mut w = WatchWorker::new(80);
    w.start();
    assert_eq!(w.on_event(10, WatchEvent::Changed), WatchAction::Wait);
    assert_eq!(w.on_event(12, WatchEvent::Changed), WatchAction::Wait);
    assert_eq!(w.on_event(15, WatchEvent::Changed), WatchAction::Wait);
}

#[test]
fn burst_coalesces_into_one_rebuild() {
    let mut w = WatchWorker::new(80);
    w.start();
    // A burst of five raw notifications within the coalescing window.
    for t in [10, 11, 12, 13, 14] {
        assert_eq!(w.on_event(t, WatchEvent::Changed), WatchAction::Wait);
    }
    // A poll tick while the window is still open: no rebuild yet.
    assert_eq!(w.on_event(50, WatchEvent::TimerTick), WatchAction::Wait);
    // The channel has been quiet for the whole window: one rebuild.
    assert_eq!(w.on_event(94, WatchEvent::TimerTick), WatchAction::Rebuild);
    // The burst is consumed: further ticks are quiet.
    assert_eq!(w.on_event(200, WatchEvent::TimerTick), WatchAction::Wait);
}

#[test]
fn window_boundary_triggers_the_rebuild() {
    let mut w = WatchWorker::new(80);
    w.start();
    assert_eq!(w.on_event(10, WatchEvent::Changed), WatchAction::Wait);
    // Quiet for exactly the whole window: the rebuild fires.
    assert_eq!(w.on_event(90, WatchEvent::TimerTick), WatchAction::Rebuild);
}

#[test]
fn tick_without_changes_never_rebuilds() {
    let mut w = WatchWorker::new(80);
    w.start();
    assert_eq!(w.on_event(100, WatchEvent::TimerTick), WatchAction::Wait);
    assert_eq!(w.on_event(1000, WatchEvent::TimerTick), WatchAction::Wait);
}

#[test]
fn cancellation_stops_the_worker() {
    let mut w = WatchWorker::new(80);
    w.start();
    assert_eq!(w.on_event(10, WatchEvent::Changed), WatchAction::Wait);
    // Cancellation wins even with a burst pending: the watch is released
    // and no further rebuild is started.
    assert_eq!(w.on_event(11, WatchEvent::CancelRequested), WatchAction::Stop);
}

/// A notifier that records the callback sequence.
struct RecordingNotifier {
    calls: Vec<String>,
}

impl BuildNotifier for RecordingNotifier {
    fn on_start(&mut self, input_path: &String) {
        self.calls.push(format!("start {}", input_path));
    }

    fn on_done(&mut self, output_path: &String) {
        self.calls.push(format!("done {}", output_path));
    }

    fn on_error(&mut self, error: &BuildError) {
        match error {
            BuildError::Step { stderr, .. } => self.calls.push(format!("error {}", stderr)),
            BuildError::Precondition { message } => {
                self.calls.push(format!("precondition {}", message))
            }
        }
    }
}

/// An executor whose command at `fail_on` fails.
struct ScriptedExecutor {
    fail_on: Option<usize>,
    count: usize,
}

impl Executor for ScriptedExecutor {
    fn ensure_dir(&mut self, _path: &String) -> Result<(), String> {
        Ok(())
    }

    fn execute(&mut self, _cmd: &CommandLine) -> RunOutcome {
        let index = self.count;
        self.count += 1;
        if self.fail_on == Some(index) {
            RunOutcome { success: false, stderr: "boom".to_string() }
        } else {
            RunOutcome { success: true, stderr: String::new() }
        }
    }
}

#[test]
fn watched_build_reports_start_then_done() {
    let pipeline = BuildPipeline::new("asc".to_string(), "didc".to_string());
    let job = BuildJob {
        input_path: "src/app.src".to_string(),
        output_stem: "build/app".to_string(),
    };
    let mut ex = ScriptedExecutor { fail_on: None, count: 0 };
    let mut n = RecordingNotifier { calls: Vec::new() };
    let report = build_and_notify(&pipeline, &mut ex, &mut n, &job);
    assert!(report.outcome.is_ok());
    assert_eq!(
        n.calls,
        vec!["start src/app.src".to_string(), "done build/app.wasm".to_string()]
    );
}

#[test]
fn watched_build_reports_error_and_returns() {
    let pipeline = BuildPipeline::new("asc".to_string(), "didc".to_string());
    let job = BuildJob {
        input_path: "src/app.src".to_string(),
        output_stem: "build/app".to_string(),
    };
    let mut ex = ScriptedExecutor { fail_on: Some(1), count: 0 };
    let mut n = RecordingNotifier { calls: Vec::new() };
    let report = build_and_notify(&pipeline, &mut ex, &mut n, &job);
    assert!(report.outcome.is_err());
    assert_eq!(
        n.calls,
        vec!["start src/app.src".to_string(), "error boom".to_string()]
    );
}

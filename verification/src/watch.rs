//! The rebuild loop of a watched file.
//!
//! One worker owns one watched file.  It rebuilds once immediately on
//! start, then waits for raw filesystem-change notifications; a burst of
//! notifications is coalesced by waiting for the channel to go quiet for a
//! fixed window before exactly one rebuild is triggered.  Cancellation is
//! cooperative: it is polled between builds, never preempts one, and is
//! final.
//!
//! The worker is a pure state machine over observed events; the
//! environment (threads, channels, the filesystem watch) delivers events
//! and performs the actions the machine returns.

use vstd::prelude::*;

verus! {

/// What a watch worker observes.
#[derive(Clone, Copy, PartialEq, Eq, Structural, Debug)]
pub enum WatchEvent {
    /// A raw filesystem-change notification for the watched file.
    Changed,
    /// The single-use cancellation signal of the worker's handle.
    CancelRequested,
    /// A poll timeout: no event arrived for one poll interval.
    TimerTick,
}

/// What the environment must do next.
#[derive(Clone, Copy, PartialEq, Eq, Structural, Debug)]
pub enum WatchAction {
    /// Run one build of the watched file, to completion.
    Rebuild,
    /// Keep waiting for events.
    Wait,
    /// Release the filesystem watch and exit the worker.
    Stop,
}

/// The state of one watch worker.
pub struct WatchWorker {
    /// Whether the initial unconditional build has been triggered.
    pub started: bool,
    /// Whether cancellation was observed; final once set.
    pub stopped: bool,
    /// The time of the last change notification of the burst currently
    /// being coalesced, if one is pending.
    pub pending_since: Option<u64>,
    /// The time of the most recently observed event.
    pub clock: u64,
    /// How long the notification channel must stay quiet after a change
    /// before the burst's one rebuild is triggered.
    pub coalesce_window: u64,
}

/// The transition of a worker observing `ev` at time `now`: the next state
/// and the action the environment must take.  A stopped worker stays
/// stopped and never asks for anything but stopping.
pub open spec fn spec_step(s: WatchWorker, now: u64, ev: WatchEvent) -> (WatchWorker, WatchAction) {
    if s.stopped {
        (s, WatchAction::Stop)
    } else {
        match ev {
            WatchEvent::CancelRequested => (
                WatchWorker { stopped: true, clock: now, ..s },
                WatchAction::Stop,
            ),
            WatchEvent::Changed => (
                WatchWorker { pending_since: Some(now), clock: now, ..s },
                WatchAction::Wait,
            ),
            WatchEvent::TimerTick => match s.pending_since {
                Some(t) => if now >= t + s.coalesce_window {
                    (WatchWorker { pending_since: None, clock: now, ..s }, WatchAction::Rebuild)
                } else {
                    (WatchWorker { clock: now, ..s }, WatchAction::Wait)
                },
                None => (WatchWorker { clock: now, ..s }, WatchAction::Wait),
            },
        }
    }
}

impl WatchWorker {
    /// A pending burst never lies in the future of the worker's clock.
    pub open spec fn wf(self) -> bool {
        self.pending_since matches Some(t) ==> t <= self.clock
    }

    /// A worker for one watched file, not yet started, with the given
    /// coalescing window.
    pub fn new(coalesce_window: u64) -> (r: Self)
        ensures
            !r.started,
            !r.stopped,
            r.pending_since is None,
            r.clock == 0,
            r.coalesce_window == coalesce_window,
            r.wf(),
    {
        WatchWorker {
            started: false,
            stopped: false,
            pending_since: None,
            clock: 0,
            coalesce_window,
        }
    }

    /// Starts the worker.  The first action is always one unconditional
    /// build, before any filesystem event is observed.
    pub fn start(&mut self) -> (a: WatchAction)
        requires
            !old(self).started,
            !old(self).stopped,
            old(self).wf(),
        ensures
            a == WatchAction::Rebuild,
            final(self).started,
            !final(self).stopped,
            final(self).pending_since == old(self).pending_since,
            final(self).clock == old(self).clock,
            final(self).coalesce_window == old(self).coalesce_window,
            final(self).wf(),
    {
        self.started = true;
        WatchAction::Rebuild
    }

    /// Observes one event at time `now` and decides the next action.
    ///
    /// A change notification never rebuilds by itself: it only (re)arms the
    /// coalescing window.  A poll tick rebuilds exactly when a burst is
    /// pending and the channel has been quiet for the whole window.
    /// Cancellation stops the worker, and is checked only between builds:
    /// an action already returned runs to completion.
    pub fn on_event(&mut self, now: u64, ev: WatchEvent) -> (a: WatchAction)
        requires
            old(self).started,
            !old(self).stopped,
            old(self).wf(),
            now >= old(self).clock,
        ensures
            *final(self) == spec_step(*old(self), now, ev).0,
            a == spec_step(*old(self), now, ev).1,
            final(self).started,
            final(self).wf(),
    {
        match ev {
            WatchEvent::CancelRequested => {
                self.stopped = true;
                self.clock = now;
                WatchAction::Stop
            },
            WatchEvent::Changed => {
                self.pending_since = Some(now);
                self.clock = now;
                WatchAction::Wait
            },
            WatchEvent::TimerTick => {
                match self.pending_since {
                    Some(t) => {
                        if now - t >= self.coalesce_window {
                            self.pending_since = None;
                            self.clock = now;
                            WatchAction::Rebuild
                        } else {
                            self.clock = now;
                            WatchAction::Wait
                        }
                    },
                    None => {
                        self.clock = now;
                        WatchAction::Wait
                    },
                }
            },
        }
    }
}

/// The worker's run over a whole trace of timed events: the final state and
/// the action taken on each event, in order.
pub open spec fn spec_run_trace(s: WatchWorker, evs: Seq<(u64, WatchEvent)>) -> (
    WatchWorker,
    Seq<WatchAction>,
)
    decreases evs.len(),
{
    if evs.len() == 0 {
        (s, Seq::<WatchAction>::empty())
    } else {
        let first = spec_step(s, evs[0].0, evs[0].1);
        let rest = spec_run_trace(first.0, evs.skip(1));
        (rest.0, seq![first.1] + rest.1)
    }
}

/// How many rebuilds a sequence of actions contains.
pub open spec fn spec_count_rebuilds(acts: Seq<WatchAction>) -> int
    decreases acts.len(),
{
    if acts.len() == 0 {
        0
    } else {
        (if acts[0] == WatchAction::Rebuild {
            1int
        } else {
            0int
        }) + spec_count_rebuilds(acts.skip(1))
    }
}

/// A trace produces as many actions as it has events.
pub proof fn lemma_run_trace_len(s: WatchWorker, evs: Seq<(u64, WatchEvent)>)
    ensures
        spec_run_trace(s, evs).1.len() == evs.len(),
    decreases evs.len(),
{
    if evs.len() > 0 {
        let first = spec_step(s, evs[0].0, evs[0].1);
        lemma_run_trace_len(first.0, evs.skip(1));
    }
}

/// A single event acts as one transition.
pub proof fn lemma_run_trace_singleton(s: WatchWorker, e: (u64, WatchEvent))
    ensures
        spec_run_trace(s, seq![e]).0 == spec_step(s, e.0, e.1).0,
        spec_run_trace(s, seq![e]).1 == seq![spec_step(s, e.0, e.1).1],
{
    let evs = seq![e];
    let first = spec_step(s, e.0, e.1);
    assert(evs[0] == e);
    assert(evs.skip(1) =~= Seq::<(u64, WatchEvent)>::empty());
    assert(spec_run_trace(first.0, Seq::<(u64, WatchEvent)>::empty()) == (
        first.0,
        Seq::<WatchAction>::empty(),
    ));
    assert(seq![first.1] + Seq::<WatchAction>::empty() =~= seq![first.1]);
}

/// A single rebuild action counts one rebuild.
pub proof fn lemma_count_rebuilds_singleton(a: WatchAction)
    ensures
        spec_count_rebuilds(seq![a]) == (if a == WatchAction::Rebuild {
            1int
        } else {
            0int
        }),
{
    let acts = seq![a];
    assert(acts[0] == a);
    assert(acts.skip(1) =~= Seq::<WatchAction>::empty());
    assert(spec_count_rebuilds(Seq::<WatchAction>::empty()) == 0);
}

/// Running a trace in two pieces is the same as running it whole.
pub proof fn lemma_run_trace_concat(
    s: WatchWorker,
    a: Seq<(u64, WatchEvent)>,
    b: Seq<(u64, WatchEvent)>,
)
    ensures
        spec_run_trace(s, a + b).0 == spec_run_trace(spec_run_trace(s, a).0, b).0,
        spec_run_trace(s, a + b).1 == spec_run_trace(s, a).1 + spec_run_trace(
            spec_run_trace(s, a).0,
            b,
        ).1,
    decreases a.len(),
{
    if a.len() == 0 {
        assert(a + b =~= b);
        assert(spec_run_trace(s, a).1 + spec_run_trace(spec_run_trace(s, a).0, b).1
            =~= spec_run_trace(s, b).1);
    } else {
        let first = spec_step(s, a[0].0, a[0].1);
        assert((a + b)[0] == a[0]);
        assert((a + b).skip(1) =~= a.skip(1) + b);
        lemma_run_trace_concat(first.0, a.skip(1), b);
        assert(spec_run_trace(s, a + b).1 =~= spec_run_trace(s, a).1 + spec_run_trace(
            spec_run_trace(s, a).0,
            b,
        ).1);
    }
}

/// Counting rebuilds distributes over concatenation.
pub proof fn lemma_count_rebuilds_concat(a: Seq<WatchAction>, b: Seq<WatchAction>)
    ensures
        spec_count_rebuilds(a + b) == spec_count_rebuilds(a) + spec_count_rebuilds(b),
    decreases a.len(),
{
    if a.len() == 0 {
        assert(a + b =~= b);
    } else {
        assert((a + b)[0] == a[0]);
        assert((a + b).skip(1) =~= a.skip(1) + b);
        lemma_count_rebuilds_concat(a.skip(1), b);
    }
}

/// A sequence of actions without a rebuild counts zero rebuilds.
pub proof fn lemma_count_no_rebuilds(acts: Seq<WatchAction>)
    requires
        forall|i: int| 0 <= i < acts.len() ==> acts[i] != WatchAction::Rebuild,
    ensures
        spec_count_rebuilds(acts) == 0,
    decreases acts.len(),
{
    if acts.len() > 0 {
        assert(forall|i: int| 0 <= i < acts.skip(1).len() ==> acts.skip(1)[i] == acts[i + 1]);
        lemma_count_no_rebuilds(acts.skip(1));
    }
}

/// A stopped worker stays stopped and never rebuilds again, whatever
/// events arrive.
pub proof fn lemma_stopped_never_rebuilds(s: WatchWorker, evs: Seq<(u64, WatchEvent)>)
    requires
        s.stopped,
    ensures
        spec_run_trace(s, evs).0.stopped,
        forall|i: int| 0 <= i < spec_run_trace(s, evs).1.len() ==> spec_run_trace(s, evs).1[i]
            == WatchAction::Stop,
    decreases evs.len(),
{
    if evs.len() > 0 {
        let first = spec_step(s, evs[0].0, evs[0].1);
        assert(first.0 == s);
        assert(first.1 == WatchAction::Stop);
        lemma_stopped_never_rebuilds(s, evs.skip(1));
        assert forall|i: int| 0 <= i < spec_run_trace(s, evs).1.len() implies spec_run_trace(
            s,
            evs,
        ).1[i] == WatchAction::Stop by {
            if i > 0 {
                assert(spec_run_trace(s, evs).1[i] == spec_run_trace(s, evs.skip(1)).1[i - 1]);
            }
        }
    }
}

/// After a cancellation signal, no later event ever triggers a rebuild:
/// every action past the cancellation is `Stop`.
pub proof fn lemma_cancel_is_final(s: WatchWorker, evs: Seq<(u64, WatchEvent)>, c: int)
    requires
        0 <= c < evs.len(),
        evs[c].1 == WatchEvent::CancelRequested,
    ensures
        spec_run_trace(s, evs).0.stopped,
        forall|j: int| c < j < spec_run_trace(s, evs).1.len() ==> spec_run_trace(s, evs).1[j]
            == WatchAction::Stop,
{
    let head = evs.take(c + 1);
    let tail = evs.skip(c + 1);
    assert(evs =~= head + tail);
    lemma_run_trace_concat(s, head, tail);
    let mid = spec_run_trace(s, head).0;

    // Processing the cancellation leaves the worker stopped, whatever the
    // state before it was.
    assert(mid.stopped) by {
        let before = evs.take(c);
        assert(head =~= before + seq![evs[c]]);
        lemma_run_trace_concat(s, before, seq![evs[c]]);
        let sb = spec_run_trace(s, before).0;
        lemma_run_trace_singleton(sb, evs[c]);
    }

    lemma_stopped_never_rebuilds(mid, tail);
    lemma_run_trace_len(s, head);
    lemma_run_trace_len(mid, tail);
    assert forall|j: int| c < j < spec_run_trace(s, evs).1.len() implies spec_run_trace(
        s,
        evs,
    ).1[j] == WatchAction::Stop by {
        assert(spec_run_trace(s, evs).1[j] == spec_run_trace(mid, tail).1[j - (c + 1)]);
    }
}

/// A burst of change notifications alone never rebuilds: every action is
/// `Wait`, and the worker is left coalescing from the last notification.
pub proof fn lemma_changes_only_wait(s: WatchWorker, changes: Seq<(u64, WatchEvent)>)
    requires
        !s.stopped,
        changes.len() >= 1,
        forall|i: int| 0 <= i < changes.len() ==> changes[i].1 == WatchEvent::Changed,
    ensures
        ({
            let r = spec_run_trace(s, changes);
            &&& !r.0.stopped
            &&& r.0.started == s.started
            &&& r.0.coalesce_window == s.coalesce_window
            &&& r.0.pending_since == Some(changes[changes.len() - 1].0)
            &&& r.0.clock == changes[changes.len() - 1].0
            &&& forall|i: int| 0 <= i < r.1.len() ==> r.1[i] == WatchAction::Wait
        }),
    decreases changes.len(),
{
    let first = spec_step(s, changes[0].0, changes[0].1);
    if changes.len() == 1 {
        assert(spec_run_trace(first.0, changes.skip(1)) == (
            first.0,
            Seq::<WatchAction>::empty(),
        ));
    } else {
        assert(forall|i: int|
            0 <= i < changes.skip(1).len() ==> changes.skip(1)[i] == changes[i + 1]);
        lemma_changes_only_wait(first.0, changes.skip(1));
        let r = spec_run_trace(s, changes);
        assert forall|i: int| 0 <= i < r.1.len() implies r.1[i] == WatchAction::Wait by {
            if i > 0 {
                assert(r.1[i] == spec_run_trace(first.0, changes.skip(1)).1[i - 1]);
            }
        }
    }
}

/// The time of the last change notification among the first `k` events,
/// when `p0` was pending before them.
pub open spec fn spec_last_change(
    p0: Option<u64>,
    evs: Seq<(u64, WatchEvent)>,
    k: int,
) -> Option<u64>
    decreases k,
{
    if k <= 0 {
        p0
    } else if evs[k - 1].1 == WatchEvent::Changed {
        Some(evs[k - 1].0)
    } else {
        spec_last_change(p0, evs, k - 1)
    }
}

/// Dropping the first event shifts the last-change bookkeeping by one.
proof fn lemma_last_change_shift(p0: Option<u64>, evs: Seq<(u64, WatchEvent)>, k: int)
    requires
        evs.len() >= 1,
        0 <= k,
        k + 1 <= evs.len(),
    ensures
        spec_last_change(
            if evs[0].1 == WatchEvent::Changed {
                Some(evs[0].0)
            } else {
                p0
            },
            evs.skip(1),
            k,
        ) == spec_last_change(p0, evs, k + 1),
    decreases k,
{
    let q = if evs[0].1 == WatchEvent::Changed {
        Some(evs[0].0)
    } else {
        p0
    };
    if k == 0 {
        assert(spec_last_change(q, evs.skip(1), 0) == q);
        assert(spec_last_change(p0, evs, 0) == p0);
        assert(spec_last_change(p0, evs, 1) == q);
    } else {
        assert(evs.skip(1)[k - 1] == evs[k]);
        lemma_last_change_shift(p0, evs, k - 1);
        assert(spec_last_change(q, evs.skip(1), k) == (if evs.skip(1)[k - 1].1
            == WatchEvent::Changed {
            Some(evs.skip(1)[k - 1].0)
        } else {
            spec_last_change(q, evs.skip(1), k - 1)
        }));
        assert(spec_last_change(p0, evs, k + 1) == (if evs[k].1 == WatchEvent::Changed {
            Some(evs[k].0)
        } else {
            spec_last_change(p0, evs, k)
        }));
    }
}

/// While the coalescing window stays open, nothing rebuilds: change
/// notifications only re-arm the window, and every poll tick that comes
/// before the window of the then-latest change has elapsed waits.
pub proof fn lemma_open_window_never_rebuilds(s: WatchWorker, evs: Seq<(u64, WatchEvent)>)
    requires
        !s.stopped,
        forall|k: int|
            0 <= k < evs.len() ==> (evs[k].1 == WatchEvent::Changed || evs[k].1
                == WatchEvent::TimerTick),
        forall|k: int|
            0 <= k < evs.len() && evs[k].1 == WatchEvent::TimerTick
                ==> match spec_last_change(s.pending_since, evs, k) {
                Some(c) => evs[k].0 < c + s.coalesce_window,
                None => true,
            },
    ensures
        ({
            let r = spec_run_trace(s, evs);
            &&& !r.0.stopped
            &&& r.0.started == s.started
            &&& r.0.coalesce_window == s.coalesce_window
            &&& r.0.pending_since == spec_last_change(s.pending_since, evs, evs.len() as int)
            &&& forall|i: int| 0 <= i < r.1.len() ==> r.1[i] == WatchAction::Wait
        }),
    decreases evs.len(),
{
    if evs.len() > 0 {
        let first = spec_step(s, evs[0].0, evs[0].1);
        let s1 = first.0;
        assert(spec_last_change(s.pending_since, evs, 0) == s.pending_since);
        assert(first.1 == WatchAction::Wait);
        assert(s1.pending_since == (if evs[0].1 == WatchEvent::Changed {
            Some(evs[0].0)
        } else {
            s.pending_since
        }));
        assert(forall|k: int|
            0 <= k < evs.skip(1).len() ==> evs.skip(1)[k] == evs[k + 1]);
        assert forall|k: int|
            0 <= k < evs.skip(1).len() && evs.skip(1)[k].1
                == WatchEvent::TimerTick implies match spec_last_change(
            s1.pending_since,
            evs.skip(1),
            k,
        ) {
            Some(c) => evs.skip(1)[k].0 < c + s1.coalesce_window,
            None => true,
        } by {
            lemma_last_change_shift(s.pending_since, evs, k);
        }
        lemma_open_window_never_rebuilds(s1, evs.skip(1));
        lemma_last_change_shift(s.pending_since, evs, evs.len() - 1);
        let r = spec_run_trace(s, evs);
        assert forall|i: int| 0 <= i < r.1.len() implies r.1[i] == WatchAction::Wait by {
            if i > 0 {
                assert(r.1[i] == spec_run_trace(s1, evs.skip(1)).1[i - 1]);
            }
        }
    }
}

/// Coalescing under polling: a burst of change notifications with any
/// number of poll ticks interleaved — each tick arriving while the window
/// of the latest notification is still open — followed by one poll tick
/// after the channel has stayed quiet for the whole window, triggers
/// exactly one rebuild for the whole burst.
pub proof fn lemma_noisy_burst_coalesces_to_one_rebuild(
    s: WatchWorker,
    evs: Seq<(u64, WatchEvent)>,
    quiet_at: u64,
)
    requires
        !s.stopped,
        s.pending_since is None,
        forall|k: int|
            0 <= k < evs.len() ==> (evs[k].1 == WatchEvent::Changed || evs[k].1
                == WatchEvent::TimerTick),
        forall|k: int|
            0 <= k < evs.len() && evs[k].1 == WatchEvent::TimerTick
                ==> match spec_last_change(s.pending_since, evs, k) {
                Some(c) => evs[k].0 < c + s.coalesce_window,
                None => true,
            },
        spec_last_change(s.pending_since, evs, evs.len() as int) matches Some(c) && quiet_at >= c
            + s.coalesce_window,
    ensures
        ({
            let trace = evs.push((quiet_at, WatchEvent::TimerTick));
            spec_count_rebuilds(spec_run_trace(s, trace).1) == 1
        }),
{
    let quiet = (quiet_at, WatchEvent::TimerTick);
    let trace = evs.push(quiet);
    assert(trace =~= evs + seq![quiet]);
    lemma_run_trace_concat(s, evs, seq![quiet]);
    lemma_open_window_never_rebuilds(s, evs);
    let mid = spec_run_trace(s, evs).0;
    assert(spec_step(mid, quiet_at, WatchEvent::TimerTick).1 == WatchAction::Rebuild);
    lemma_run_trace_singleton(mid, quiet);
    lemma_count_rebuilds_concat(spec_run_trace(s, evs).1, spec_run_trace(mid, seq![quiet]).1);
    lemma_count_no_rebuilds(spec_run_trace(s, evs).1);
    lemma_count_rebuilds_singleton(WatchAction::Rebuild);
}

/// Coalescing: a burst of any number of change notifications, followed by
/// a poll tick after the channel has stayed quiet for the whole window,
/// triggers exactly one rebuild for the whole burst.
pub proof fn lemma_burst_coalesces_to_one_rebuild(
    s: WatchWorker,
    changes: Seq<(u64, WatchEvent)>,
    quiet_at: u64,
)
    requires
        !s.stopped,
        s.pending_since is None,
        changes.len() >= 1,
        forall|i: int| 0 <= i < changes.len() ==> changes[i].1 == WatchEvent::Changed,
        quiet_at >= changes[changes.len() - 1].0 + s.coalesce_window,
    ensures
        ({
            let evs = changes.push((quiet_at, WatchEvent::TimerTick));
            spec_count_rebuilds(spec_run_trace(s, evs).1) == 1
        }),
{
    let quiet = (quiet_at, WatchEvent::TimerTick);
    let evs = changes.push(quiet);
    assert(evs =~= changes + seq![quiet]);
    lemma_run_trace_concat(s, changes, seq![quiet]);
    lemma_changes_only_wait(s, changes);
    let mid = spec_run_trace(s, changes).0;
    assert(spec_step(mid, quiet_at, WatchEvent::TimerTick).1 == WatchAction::Rebuild);
    lemma_run_trace_singleton(mid, quiet);
    assert(spec_run_trace(mid, seq![quiet]).1 == seq![WatchAction::Rebuild]);
    lemma_count_rebuilds_concat(spec_run_trace(s, changes).1, spec_run_trace(mid, seq![quiet]).1);
    lemma_run_trace_len(s, changes);
    lemma_count_no_rebuilds(spec_run_trace(s, changes).1);
    lemma_count_rebuilds_singleton(WatchAction::Rebuild);
}

} // verus!

//! The live-monitoring engine. One state machine drives every mode the
//! command line exposes — *wait* and *watch* (poll the job's status at
//! a fixed interval until it leaves the running state, reporting each
//! transition) and *follow* (tail the job's log until it finishes).
//!
//! The machine owns every decision: when to sleep, when to poll, what
//! changed, when to retry a transient failure, when to stop, and when
//! to notify — exactly once, at the transition into a terminal state.
//! The surrounding program owns the effects: it asks the machine for
//! the next step with [`Monitor::request`], performs the sleep or the
//! remote call, and hands the result back through the `on_*` methods.
//! Cancellation is cooperative: the driver reads the interrupt flag
//! when asked and reports it; the machine then winds down before any
//! further remote call is issued.

use vstd::prelude::*;

use crate::error::RepriseError;
use crate::retry::{spec_is_transient, spec_retry_step, RetryDecision, RetryState};
use crate::strutil::spec_lines;
use crate::tail::{spec_tail_delta, spec_tail_next, TailState};

verus! {

/// The closed set of job states. `Running` is the only non-terminal
/// one; a status code outside the known set reads as `Unknown`, which
/// this engine treats as terminal everywhere, uniformly.
#[derive(Clone, Copy, PartialEq, Eq, Structural, Debug)]
pub enum JobStatus {
    Running,
    Success,
    Failed,
    Aborted,
    Unknown,
}

/// The job state denoted by a remote status code.
pub open spec fn spec_status_from_code(code: int) -> JobStatus {
    if code == 0 {
        JobStatus::Running
    } else if code == 1 {
        JobStatus::Success
    } else if code == 2 {
        JobStatus::Failed
    } else if code == 3 {
        JobStatus::Aborted
    } else {
        JobStatus::Unknown
    }
}

/// Decode a remote status code into a job state.
pub fn status_from_code(code: i32) -> (s: JobStatus)
    ensures
        s == spec_status_from_code(code as int),
{
    if code == 0 {
        JobStatus::Running
    } else if code == 1 {
        JobStatus::Success
    } else if code == 2 {
        JobStatus::Failed
    } else if code == 3 {
        JobStatus::Aborted
    } else {
        JobStatus::Unknown
    }
}

/// A status code is terminal exactly when it is not `Running`.
pub open spec fn spec_is_terminal(code: int) -> bool {
    code != 0
}

/// The last-observed state of a job. Produced fresh on every poll and
/// never mutated; a new snapshot supersedes the previous one.
pub struct JobSnapshot {
    /// The remote status code; 0 is running.
    pub status: i32,
    /// The remote's human status label.
    pub label: String,
    pub triggered_at: Option<i64>,
    pub started_at: Option<i64>,
    pub finished_at: Option<i64>,
    pub abort_reason: Option<String>,
}

impl JobSnapshot {
    /// The job state this snapshot shows.
    pub fn job_status(&self) -> (s: JobStatus)
        ensures
            s == spec_status_from_code(self.status as int),
    {
        status_from_code(self.status)
    }

    /// Whether the job has left the running state for good.
    pub fn is_terminal(&self) -> (b: bool)
        ensures
            b == spec_is_terminal(self.status as int),
    {
        self.status != 0
    }
}

impl Clone for JobSnapshot {
    fn clone(&self) -> (r: Self)
        ensures
            r == *self,
    {
        JobSnapshot {
            status: self.status,
            label: self.label.clone(),
            triggered_at: self.triggered_at,
            started_at: self.started_at,
            finished_at: self.finished_at,
            abort_reason: match &self.abort_reason {
                Some(s) => Some(s.clone()),
                None => None,
            },
        }
    }
}

/// Configuration for one monitoring invocation: the poll interval, the
/// retry budget for each remote call, and whether a desktop
/// notification is wanted on completion.
#[derive(Clone, Copy, PartialEq, Eq, Structural, Debug)]
pub struct PollContext {
    pub interval_secs: u64,
    pub max_attempts: u32,
    pub notify: bool,
}

/// The observable modes: poll status until terminal (`Wait`), the same
/// with per-transition display (`Watch`), or tail the log (`Follow`).
#[derive(Clone, Copy, PartialEq, Eq, Structural, Debug)]
pub enum MonitorMode {
    Wait,
    Watch,
    Follow,
}

/// Where the machine stands between two interactions with the driver.
#[derive(Clone, Copy, PartialEq, Eq, Structural, Debug)]
pub enum MonitorPhase {
    /// The driver is sleeping for the poll interval.
    Sleeping,
    /// The driver must read the cancellation flag next.
    CancelCheck,
    /// The driver is sleeping for a retry backoff of this many units.
    Backoff(u64),
    /// A status fetch is owed.
    AwaitStatus,
    /// A log fetch is owed.
    AwaitLog,
    /// The run is over; the outcome is ready.
    Finished,
}

/// What the driver must do next.
#[derive(Clone, Copy, PartialEq, Eq, Structural, Debug)]
pub enum MonitorStep {
    /// Sleep this many time units, then call `on_wake`.
    Sleep(u64),
    /// Read the cancellation flag, then call `on_cancel`.
    CheckCancel,
    /// Fetch the job's status, then call `on_status`.
    FetchStatus,
    /// Fetch the job's full log, then call `on_log`.
    FetchLog,
    /// Nothing; take the outcome.
    Done,
}

/// How a monitoring run ended.
pub enum MonitorOutcome {
    /// A terminal snapshot was observed; this is it.
    Completed(JobSnapshot),
    /// The user cancelled; the job itself runs on remotely. Carries the
    /// last-known snapshot, if any poll succeeded.
    Cancelled(Option<JobSnapshot>),
    /// A remote call failed permanently or exhausted its retries.
    RemoteFailed(RepriseError),
    /// The log fetch failed after the job had finished: the log will
    /// never appear.
    LogNeverAvailable,
}

/// What one status poll produced for the driver to render.
pub struct StatusEvent {
    /// The observed status differs from the previous one (or is the
    /// first); the driver shows it in watch mode.
    pub transition: bool,
    /// A completion notification is owed now, exactly once per run.
    pub notify: bool,
}

/// What one log poll produced for the driver to render.
pub struct LogEvent {
    /// The newly appended lines, in order.
    pub new_lines: Vec<String>,
    /// A completion notification is owed now, exactly once per run.
    pub notify: bool,
}

/// The monitoring engine's full state.
pub struct Monitor {
    pub mode: MonitorMode,
    pub ctx: PollContext,
    pub phase: MonitorPhase,
    /// The last observed status code, for transition detection.
    pub last_status: Option<i32>,
    /// The last successfully fetched snapshot.
    pub last_snapshot: Option<JobSnapshot>,
    /// In follow mode: whether the job was still running at the last
    /// successful status fetch. Starts true; a failed status fetch is
    /// tolerated silently and leaves it alone.
    pub job_running: bool,
    /// Follow mode's count of log lines already emitted.
    pub tail: TailState,
    /// The retry budget of the status fetch now in flight.
    pub retry: RetryState,
    /// A completion notification has been issued.
    pub notified: bool,
    /// Set exactly when `phase` is `Finished`.
    pub outcome: Option<MonitorOutcome>,
}

impl Monitor {
    /// The machine's internal consistency: the outcome exists exactly
    /// at the end, a completed outcome holds a terminal snapshot, the
    /// log phase belongs to follow mode, and a job known to have
    /// stopped has been seen in a snapshot.
    pub open spec fn wf(self) -> bool {
        &&& (self.phase == MonitorPhase::Finished <==> self.outcome is Some)
        &&& (self.phase == MonitorPhase::AwaitLog ==> self.mode == MonitorMode::Follow)
        &&& (self.mode != MonitorMode::Follow ==> self.job_running)
        &&& (!self.job_running ==> self.last_snapshot is Some && spec_is_terminal(
            self.last_snapshot.unwrap().status as int,
        ))
        &&& match self.outcome {
            Some(MonitorOutcome::Completed(s)) => spec_is_terminal(s.status as int),
            _ => true,
        }
    }

    /// The machine's answer to "what should the driver do next", as a
    /// function of the phase alone.
    pub open spec fn spec_request(self) -> MonitorStep {
        match self.phase {
            MonitorPhase::Sleeping => MonitorStep::Sleep(self.ctx.interval_secs),
            MonitorPhase::Backoff(d) => MonitorStep::Sleep(d),
            MonitorPhase::CancelCheck => MonitorStep::CheckCancel,
            MonitorPhase::AwaitStatus => MonitorStep::FetchStatus,
            MonitorPhase::AwaitLog => MonitorStep::FetchLog,
            MonitorPhase::Finished => MonitorStep::Done,
        }
    }

    /// The run is over.
    pub open spec fn spec_is_finished(self) -> bool {
        self.phase == MonitorPhase::Finished
    }
}

/// The machine as first set up: wait and watch sleep before the first
/// poll — deliberately, so a freshly triggered job has time to register
/// remotely — while follow fetches at once, after a cancellation check.
pub open spec fn spec_init(mode: MonitorMode, ctx: PollContext) -> Monitor {
    Monitor {
        mode,
        ctx,
        phase: match mode {
            MonitorMode::Follow => MonitorPhase::CancelCheck,
            _ => MonitorPhase::Sleeping,
        },
        last_status: None,
        last_snapshot: None,
        job_running: true,
        tail: TailState { lines_emitted: 0 },
        retry: RetryState { attempt: 0, max_attempts: ctx.max_attempts },
        notified: false,
        outcome: None,
    }
}

/// The state after the driver reports the cancellation flag. A set flag
/// ends the run at once — before any further remote call — with the
/// last-known snapshot; a clear flag releases the next status fetch,
/// with a fresh retry budget.
pub open spec fn spec_step_cancel(m: Monitor, cancelled: bool) -> Monitor {
    if m.phase != MonitorPhase::CancelCheck {
        m
    } else if cancelled {
        Monitor {
            phase: MonitorPhase::Finished,
            outcome: Some(MonitorOutcome::Cancelled(m.last_snapshot)),
            ..m
        }
    } else {
        Monitor {
            phase: MonitorPhase::AwaitStatus,
            retry: RetryState { attempt: 0, max_attempts: m.ctx.max_attempts },
            ..m
        }
    }
}

/// The state after a sleep ends. An interval sleep is followed by the
/// cancellation check; a retry backoff goes straight back to the fetch,
/// since a call in flight — retries included — always completes before
/// cancellation is observed.
pub open spec fn spec_step_wake(m: Monitor) -> Monitor {
    match m.phase {
        MonitorPhase::Sleeping => Monitor { phase: MonitorPhase::CancelCheck, ..m },
        MonitorPhase::Backoff(_) => Monitor { phase: MonitorPhase::AwaitStatus, ..m },
        _ => m,
    }
}

/// The state and event after a status fetch returns.
///
/// In wait and watch modes a snapshot is compared against the previous
/// status: a change (or a first snapshot) is a transition; a terminal
/// status ends the run with exactly that snapshot, owing a notification
/// if one is wanted and none was issued; a running status schedules the
/// next interval. A failure is put to the retry policy: transient and
/// within budget sleeps the backoff and refetches, anything else ends
/// the run with the error.
///
/// In follow mode the snapshot only refreshes whether the job still
/// runs, and a failure is tolerated silently; either way the log fetch
/// is next.
pub open spec fn spec_step_status(m: Monitor, r: Result<JobSnapshot, RepriseError>) -> (
    Monitor,
    StatusEvent,
) {
    let none = StatusEvent { transition: false, notify: false };
    if m.phase != MonitorPhase::AwaitStatus {
        (m, none)
    } else if m.mode == MonitorMode::Follow {
        match r {
            Ok(snap) => (
                Monitor {
                    job_running: !spec_is_terminal(snap.status as int),
                    last_status: Some(snap.status),
                    last_snapshot: Some(snap),
                    phase: MonitorPhase::AwaitLog,
                    ..m
                },
                none,
            ),
            Err(_) => (Monitor { phase: MonitorPhase::AwaitLog, ..m }, none),
        }
    } else {
        match r {
            Ok(snap) => {
                let transition = m.last_status != Some(snap.status);
                let terminal = spec_is_terminal(snap.status as int);
                let notify = terminal && m.ctx.notify && !m.notified;
                (
                    Monitor {
                        last_status: Some(snap.status),
                        last_snapshot: Some(snap),
                        notified: m.notified || notify,
                        phase: if terminal {
                            MonitorPhase::Finished
                        } else {
                            MonitorPhase::Sleeping
                        },
                        outcome: if terminal {
                            Some(MonitorOutcome::Completed(snap))
                        } else {
                            None
                        },
                        ..m
                    },
                    StatusEvent { transition, notify },
                )
            },
            Err(e) => {
                let step = spec_retry_step(m.retry, spec_is_transient(&e));
                match step.1 {
                    RetryDecision::RetryAfter(d) => (
                        Monitor { retry: step.0, phase: MonitorPhase::Backoff(d), ..m },
                        none,
                    ),
                    RetryDecision::GiveUp => (
                        Monitor {
                            phase: MonitorPhase::Finished,
                            outcome: Some(MonitorOutcome::RemoteFailed(e)),
                            ..m
                        },
                        none,
                    ),
                }
            },
        }
    }
}

/// The state, emitted lines, and notification flag after a log fetch
/// returns, in follow mode.
///
/// A fetched log is split into lines; the suffix past the emitted count
/// is the delta (empty if the log shrank), and the count advances. If
/// the job had already stopped, the run ends with the last snapshot,
/// owing a notification if one is wanted. A failed fetch while the job
/// still runs merely means the log is not available yet: sleep and try
/// again. A failed fetch after the job stopped means the log will never
/// appear.
pub open spec fn spec_step_log(m: Monitor, r: Result<String, RepriseError>) -> (
    Monitor,
    Seq<Seq<char>>,
    bool,
) {
    if m.phase != MonitorPhase::AwaitLog {
        (m, Seq::empty(), false)
    } else {
        match r {
            Ok(content) => {
                let lines = spec_lines(content@);
                let delta = spec_tail_delta(m.tail.lines_emitted as nat, lines);
                let count = spec_tail_next(m.tail.lines_emitted as nat, lines.len());
                let tail = TailState { lines_emitted: count as usize };
                if !m.job_running {
                    let notify = m.ctx.notify && !m.notified;
                    (
                        Monitor {
                            tail,
                            notified: m.notified || notify,
                            phase: MonitorPhase::Finished,
                            outcome: Some(
                                MonitorOutcome::Completed(m.last_snapshot.unwrap()),
                            ),
                            ..m
                        },
                        delta,
                        notify,
                    )
                } else {
                    (Monitor { tail, phase: MonitorPhase::Sleeping, ..m }, delta, false)
                }
            },
            Err(_) => {
                if m.job_running {
                    (Monitor { phase: MonitorPhase::Sleeping, ..m }, Seq::empty(), false)
                } else {
                    (
                        Monitor {
                            phase: MonitorPhase::Finished,
                            outcome: Some(MonitorOutcome::LogNeverAvailable),
                            ..m
                        },
                        Seq::empty(),
                        false,
                    )
                }
            },
        }
    }
}

impl Monitor {
    /// Set up one monitoring run.
    pub fn new(mode: MonitorMode, ctx: PollContext) -> (m: Self)
        ensures
            m == spec_init(mode, ctx),
            m.wf(),
    {
        Monitor {
            mode,
            ctx,
            phase: match mode {
                MonitorMode::Follow => MonitorPhase::CancelCheck,
                _ => MonitorPhase::Sleeping,
            },
            last_status: None,
            last_snapshot: None,
            job_running: true,
            tail: TailState::new(),
            retry: RetryState::new(ctx.max_attempts),
            notified: false,
            outcome: None,
        }
    }

    /// What the driver should do next.
    pub fn request(&self) -> (step: MonitorStep)
        ensures
            step == self.spec_request(),
    {
        match self.phase {
            MonitorPhase::Sleeping => MonitorStep::Sleep(self.ctx.interval_secs),
            MonitorPhase::Backoff(d) => MonitorStep::Sleep(d),
            MonitorPhase::CancelCheck => MonitorStep::CheckCancel,
            MonitorPhase::AwaitStatus => MonitorStep::FetchStatus,
            MonitorPhase::AwaitLog => MonitorStep::FetchLog,
            MonitorPhase::Finished => MonitorStep::Done,
        }
    }

    /// The run is over and the outcome may be taken.
    pub fn is_finished(&self) -> (b: bool)
        ensures
            b == self.spec_is_finished(),
    {
        match self.phase {
            MonitorPhase::Finished => true,
            _ => false,
        }
    }

    /// Report the cancellation flag the driver read.
    pub fn on_cancel(&mut self, cancelled: bool)
        requires
            old(self).wf(),
            old(self).phase == MonitorPhase::CancelCheck,
        ensures
            *final(self) == spec_step_cancel(*old(self), cancelled),
            final(self).wf(),
    {
        if cancelled {
            let last = take_snapshot_option(&mut self.last_snapshot);
            self.last_snapshot = match &last {
                Some(s) => Some(s.clone()),
                None => None,
            };
            self.phase = MonitorPhase::Finished;
            self.outcome = Some(MonitorOutcome::Cancelled(last));
        } else {
            self.retry = RetryState::new(self.ctx.max_attempts);
            self.phase = MonitorPhase::AwaitStatus;
        }
    }

    /// Report that a sleep — interval or backoff — has ended.
    pub fn on_wake(&mut self)
        requires
            old(self).wf(),
            old(self).phase == MonitorPhase::Sleeping || old(self).phase matches
                MonitorPhase::Backoff(_),
        ensures
            *final(self) == spec_step_wake(*old(self)),
            final(self).wf(),
    {
        match self.phase {
            MonitorPhase::Sleeping => {
                self.phase = MonitorPhase::CancelCheck;
            },
            MonitorPhase::Backoff(_) => {
                self.phase = MonitorPhase::AwaitStatus;
            },
            _ => {},
        }
    }

    /// Report the result of the status fetch.
    pub fn on_status(&mut self, r: Result<JobSnapshot, RepriseError>) -> (ev: StatusEvent)
        requires
            old(self).wf(),
            old(self).phase == MonitorPhase::AwaitStatus,
        ensures
            *final(self) == spec_step_status(*old(self), r).0,
            ev == spec_step_status(*old(self), r).1,
            final(self).wf(),
    {
        let follow = match self.mode {
            MonitorMode::Follow => true,
            _ => false,
        };
        if follow {
            match r {
                Ok(snap) => {
                    self.job_running = !snap.is_terminal();
                    self.last_status = Some(snap.status);
                    self.last_snapshot = Some(snap);
                    self.phase = MonitorPhase::AwaitLog;
                },
                Err(_) => {
                    self.phase = MonitorPhase::AwaitLog;
                },
            }
            StatusEvent { transition: false, notify: false }
        } else {
            match r {
                Ok(snap) => {
                    let transition = match self.last_status {
                        Some(prev) => prev != snap.status,
                        None => true,
                    };
                    let terminal = snap.is_terminal();
                    let notify = terminal && self.ctx.notify && !self.notified;
                    self.last_status = Some(snap.status);
                    if terminal {
                        self.last_snapshot = Some(snap.clone());
                        self.notified = self.notified || notify;
                        self.phase = MonitorPhase::Finished;
                        self.outcome = Some(MonitorOutcome::Completed(snap));
                    } else {
                        self.last_snapshot = Some(snap);
                        self.phase = MonitorPhase::Sleeping;
                    }
                    StatusEvent { transition, notify }
                },
                Err(e) => {
                    let decision = self.retry.on_failure(&e);
                    match decision {
                        RetryDecision::RetryAfter(d) => {
                            self.phase = MonitorPhase::Backoff(d);
                        },
                        RetryDecision::GiveUp => {
                            self.phase = MonitorPhase::Finished;
                            self.outcome = Some(MonitorOutcome::RemoteFailed(e));
                        },
                    }
                    StatusEvent { transition: false, notify: false }
                },
            }
        }
    }

    /// Report the result of the log fetch.
    pub fn on_log(&mut self, r: Result<String, RepriseError>) -> (ev: LogEvent)
        requires
            old(self).wf(),
            old(self).phase == MonitorPhase::AwaitLog,
        ensures
            *final(self) == spec_step_log(*old(self), r).0,
            ev.new_lines.deep_view() == spec_step_log(*old(self), r).1,
            ev.notify == spec_step_log(*old(self), r).2,
            final(self).wf(),
    {
        match r {
            Ok(content) => {
                let lines = crate::strutil::split_lines(content.as_str());
                let delta = self.tail.take_new_lines(lines);
                if !self.job_running {
                    let notify = self.ctx.notify && !self.notified;
                    self.notified = self.notified || notify;
                    let last = take_snapshot_option(&mut self.last_snapshot);
                    let snap = match last {
                        Some(s) => s,
                        None => JobSnapshot {  // unreachable: wf gives a snapshot
                            status: 1,
                            label: String::new(),
                            triggered_at: None,
                            started_at: None,
                            finished_at: None,
                            abort_reason: None,
                        },
                    };
                    self.last_snapshot = Some(snap.clone());
                    self.phase = MonitorPhase::Finished;
                    self.outcome = Some(MonitorOutcome::Completed(snap));
                    LogEvent { new_lines: delta, notify }
                } else {
                    self.phase = MonitorPhase::Sleeping;
                    LogEvent { new_lines: delta, notify: false }
                }
            },
            Err(_) => {
                if self.job_running {
                    self.phase = MonitorPhase::Sleeping;
                } else {
                    self.phase = MonitorPhase::Finished;
                    self.outcome = Some(MonitorOutcome::LogNeverAvailable);
                }
                LogEvent { new_lines: Vec::new(), notify: false }
            },
        }
    }

    /// Take the outcome of a finished run.
    pub fn take_outcome(self) -> (o: MonitorOutcome)
        requires
            self.wf(),
            self.spec_is_finished(),
        ensures
            Some(o) == self.outcome,
    {
        match self.outcome {
            Some(o) => o,
            None => MonitorOutcome::LogNeverAvailable,  // unreachable: wf gives an outcome
        }
    }
}

/// Move a snapshot out of an option, leaving `None`.
fn take_snapshot_option(o: &mut Option<JobSnapshot>) -> (r: Option<JobSnapshot>)
    ensures
        r == *old(o),
        *final(o) is None,
{
    let mut tmp: Option<JobSnapshot> = None;
    core::mem::swap(o, &mut tmp);
    tmp
}

/// Any one reply the driver can hand the machine.
pub enum MonitorReply {
    Cancel(bool),
    Wake,
    Status(Result<JobSnapshot, RepriseError>),
    Log(Result<String, RepriseError>),
}

/// One step of the machine under an arbitrary reply: the state reached
/// and whether a notification was issued in that step. A reply that
/// does not fit the phase leaves the state alone.
pub open spec fn spec_step(m: Monitor, rep: MonitorReply) -> (Monitor, bool) {
    match rep {
        MonitorReply::Cancel(c) => (spec_step_cancel(m, c), false),
        MonitorReply::Wake => (spec_step_wake(m), false),
        MonitorReply::Status(r) => {
            let s = spec_step_status(m, r);
            (s.0, s.1.notify)
        },
        MonitorReply::Log(r) => {
            let s = spec_step_log(m, r);
            (s.0, s.2)
        },
    }
}

/// The state reached after a whole sequence of replies.
pub open spec fn spec_run_state(m: Monitor, reps: Seq<MonitorReply>) -> Monitor
    decreases reps.len(),
{
    if reps.len() == 0 {
        m
    } else {
        spec_run_state(spec_step(m, reps[0]).0, reps.skip(1))
    }
}

/// How many notifications a whole sequence of replies issues.
pub open spec fn spec_run_notify_count(m: Monitor, reps: Seq<MonitorReply>) -> nat
    decreases reps.len(),
{
    if reps.len() == 0 {
        0
    } else {
        let s = spec_step(m, reps[0]);
        (if s.1 {
            1nat
        } else {
            0nat
        }) + spec_run_notify_count(s.0, reps.skip(1))
    }
}

/// A notification is only ever issued while none has been, and the flag
/// that records one never clears.
proof fn lemma_step_notify_facts(m: Monitor, rep: MonitorReply)
    ensures
        spec_step(m, rep).1 ==> !m.notified && spec_step(m, rep).0.notified,
        m.notified ==> spec_step(m, rep).0.notified,
{
}

/// Single notification: over one whole monitoring run — any sequence
/// of replies whatsoever, fed to a machine that has not yet notified —
/// at most one notification is issued. Together with
/// `lemma_notification_at_completion`, which places it at the
/// transition into the terminal state, the notification fires exactly
/// once per completed run that asked for one.
pub proof fn lemma_single_notification(m: Monitor, reps: Seq<MonitorReply>)
    ensures
        spec_run_notify_count(m, reps) <= (if m.notified {
            0int
        } else {
            1int
        }),
    decreases reps.len(),
{
    if reps.len() > 0 {
        lemma_step_notify_facts(m, reps[0]);
        lemma_single_notification(spec_step(m, reps[0]).0, reps.skip(1));
    }
}

/// The notification, when wanted and not yet issued, fires exactly at
/// the poll that observes the terminal snapshot, and the run completes
/// with that very snapshot.
pub proof fn lemma_notification_at_completion(m: Monitor, snap: JobSnapshot)
    requires
        m.wf(),
        m.phase == MonitorPhase::AwaitStatus,
        m.mode != MonitorMode::Follow,
        spec_is_terminal(snap.status as int),
        m.ctx.notify,
        !m.notified,
    ensures
        spec_step_status(m, Ok(snap)).1.notify,
        spec_step_status(m, Ok(snap)).0.outcome == Some(MonitorOutcome::Completed(snap)),
{
}

/// Idempotent re-poll: a poll that observes the same status as the
/// previous one is no transition, so the transition callback is not
/// invoked again for that status value.
pub proof fn lemma_idempotent_repoll(m: Monitor, snap: JobSnapshot)
    requires
        m.phase == MonitorPhase::AwaitStatus,
        m.mode != MonitorMode::Follow,
        m.last_status == Some(snap.status),
    ensures
        !spec_step_status(m, Ok(snap)).1.transition,
{
}

/// A finished machine absorbs every further reply unchanged, issuing
/// nothing.
proof fn lemma_finished_absorbing_step(m: Monitor, rep: MonitorReply)
    requires
        m.spec_is_finished(),
    ensures
        spec_step(m, rep).0 == m,
        !spec_step(m, rep).1,
{
}

/// A finished machine stays exactly where it is under any sequence of
/// replies.
proof fn lemma_finished_absorbing_run(m: Monitor, reps: Seq<MonitorReply>)
    requires
        m.spec_is_finished(),
    ensures
        spec_run_state(m, reps) == m,
    decreases reps.len(),
{
    if reps.len() > 0 {
        lemma_finished_absorbing_step(m, reps[0]);
        lemma_finished_absorbing_run(m, reps.skip(1));
    }
}

/// Terminal absorption: once a poll observes a snapshot whose status is
/// not running, the machine finishes with exactly that snapshot, asks
/// for nothing further — its one remaining request is `Done` — and no
/// later reply of any kind moves it again. No further polls occur.
pub proof fn lemma_terminal_absorption(
    m: Monitor,
    snap: JobSnapshot,
    reps: Seq<MonitorReply>,
)
    requires
        m.wf(),
        m.phase == MonitorPhase::AwaitStatus,
        m.mode != MonitorMode::Follow,
        spec_is_terminal(snap.status as int),
    ensures
        ({
            let after = spec_step_status(m, Ok(snap)).0;
            after.spec_is_finished() && after.outcome == Some(MonitorOutcome::Completed(snap))
                && after.spec_request() == MonitorStep::Done && spec_run_state(after, reps)
                == after
        }),
{
    let after = spec_step_status(m, Ok(snap)).0;
    lemma_finished_absorbing_run(after, reps);
}

/// Cancellation is prompt: after any between-polls sleep the machine's
/// next demand is the cancellation check, and a set flag ends the run
/// right there — before any further remote call is requested — with
/// the last-known snapshot.
pub proof fn lemma_cancellation_prompt(m: Monitor, cancelled: bool)
    requires
        m.wf(),
        m.phase == MonitorPhase::Sleeping,
    ensures
        spec_step_wake(m).spec_request() == MonitorStep::CheckCancel,
        cancelled ==> ({
            let stopped = spec_step_cancel(spec_step_wake(m), true);
            stopped.spec_is_finished() && stopped.outcome == Some(
                MonitorOutcome::Cancelled(m.last_snapshot),
            ) && stopped.spec_request() == MonitorStep::Done
        }),
{
}

/// Cancellation is bounded, not preemptive: a retry backoff in the
/// middle of a remote call wakes straight back into the fetch, so the
/// call and its retries always complete before the flag is read again.
pub proof fn lemma_retry_backoff_uninterrupted(m: Monitor, d: u64)
    requires
        m.phase == MonitorPhase::Backoff(d),
    ensures
        spec_step_wake(m).spec_request() == MonitorStep::FetchStatus,
{
}

/// The snapshot a build shows: its status code and label, its
/// timestamps, and its abort reason.
pub fn snapshot_of_build(b: &crate::types::Build) -> (s: JobSnapshot)
    ensures
        s.status == b.status,
        s.label == b.status_text,
        s.triggered_at == Some(b.triggered_at),
        s.started_at == b.started_on_worker_at,
        s.finished_at == b.finished_at,
        s.abort_reason == b.abort_reason,
{
    JobSnapshot {
        status: b.status,
        label: b.status_text.clone(),
        triggered_at: Some(b.triggered_at),
        started_at: b.started_on_worker_at,
        finished_at: b.finished_at,
        abort_reason: match &b.abort_reason {
            Some(r) => Some(r.clone()),
            None => None,
        },
    }
}

/// The snapshot a pipeline shows; a pipeline without a status label
/// reads as its status code's standard label.
pub fn snapshot_of_pipeline(p: &crate::types::Pipeline) -> (s: JobSnapshot)
    ensures
        s.status == p.status,
        match p.status_text {
            Some(t) => s.label == t,
            None => s.label@ == crate::types::spec_status_display(p.status as int),
        },
        s.triggered_at == p.triggered_at,
        s.started_at == p.started_at,
        s.finished_at == p.finished_at,
        s.abort_reason == p.abort_reason,
{
    JobSnapshot {
        status: p.status,
        label: match &p.status_text {
            Some(t) => t.clone(),
            None => <String as vstd::string::StringExecFns>::from_str(p.status_display()),
        },
        triggered_at: p.triggered_at,
        started_at: p.started_at,
        finished_at: p.finished_at,
        abort_reason: match &p.abort_reason {
            Some(r) => Some(r.clone()),
            None => None,
        },
    }
}

/// The error the caller is shown when the log fetch failed after the
/// job had finished.
pub fn log_unavailable_error() -> (e: RepriseError)
    ensures
        match e {
            RepriseError::LogNotAvailable(m) => m@ == "Log content is not available."@,
            _ => false,
        },
{
    let mut m = String::new();
    m.append("Log content is not available.");
    RepriseError::LogNotAvailable(m)
}

} // verus!

//! The profile executor: a state machine that drives one run.
//!
//! The executor owns every decision of the control loop — stage
//! sequencing against a monotonic clock, the sensor-failure fallback,
//! the bang-bang heater policy, and the exact bytes of every log line —
//! while the caller performs the hardware edges it is commanded to:
//! opening, appending to and closing the log file, reading the clock and
//! the sensor, and driving the heater pin. The caller reports each
//! outcome back, and the executor answers with the next command.
//!
//! Failure policy: a failed sensor read degrades silently to a fallback
//! reading and the run continues; a failed open, append, heater set or
//! close is fatal — the run aborts at once, no further stage runs, no
//! further line is emitted, and the log file is not closed a second
//! time.

use vstd::prelude::*;

use crate::control::effective_temp;
use crate::control::heater_command;
use crate::control::heater_on_spec;
use crate::control::resolve_reading;
use crate::logline::log_line;
use crate::logline::log_line_spec;
use crate::profile::Profile;
use crate::profile::Stage;
use crate::profile::all_stages_wf;
use crate::trace::LogRecord;
use crate::trace::elapsed_in_order;
use crate::trace::entries_wf;
use crate::trace::lemma_all_stages_visited;
use crate::trace::lemma_push_entry_wf;
use crate::trace::lemma_push_in_order;
use crate::trace::stages_in_order;

verus! {

/// Where a run stands and which report it is waiting for.
#[derive(Clone, Copy, PartialEq, Eq, Structural, Debug)]
pub enum RunState {
    /// Not started.
    Idle,
    /// Waiting for the outcome of opening the log file.
    Opening,
    /// Waiting for the first clock/sensor sample; stage 0 has not
    /// started counting yet.
    FirstTick,
    /// Waiting for the next clock/sensor sample of stage `stage`, whose
    /// first sample arrived at clock value `start`.
    AwaitTick { stage: usize, start: u64 },
    /// Waiting for the outcome of appending the latest log line and
    /// driving the heater.
    AwaitIo { stage: usize, start: u64 },
    /// Waiting for the log file to be closed.
    Closing,
    /// Every stage ran and the log file was closed.
    Completed,
    /// A fatal open, append, heater or close failure stopped the run.
    Aborted,
}

/// What the caller must do next.
#[derive(Debug, PartialEq)]
pub enum Command {
    /// Open (create or truncate) the log file, then report the outcome
    /// with `on_opened`.
    OpenLog,
    /// Read the monotonic clock and the sensor, then report both with
    /// `on_tick`.
    RequestTick,
    /// Append `line` to the log file; if that succeeded, drive the
    /// heater pin to `heater_on`; then wait the throttle interval and
    /// report the outcomes with `on_io`.
    AppendAndSet { line: Vec<u8>, heater_on: bool },
    /// Close the log file, then report the outcome with `on_closed`.
    CloseLog,
    /// The run is over — completed or aborted; nothing more will be
    /// commanded.
    Halt,
}

/// The log entry a tick emits: `elapsed` seconds into stage `stage`,
/// whose target is `target`, with the sensor having answered `reading`.
pub open spec fn tick_entry(stage: nat, elapsed: nat, target: u32, reading: Option<u32>) -> LogRecord {
    LogRecord {
        stage,
        elapsed,
        target: target as nat,
        actual: effective_temp(reading) as nat,
        heater_on: heater_on_spec(effective_temp(reading), target),
    }
}

/// The profile executor. Constructed over an immutable profile, it is
/// driven by reports (`on_opened`, `on_tick`, `on_io`, `on_closed`) and
/// answers each with the next `Command`.
pub struct Executor {
    profile: Profile,
    state: RunState,
    last_now: u64,
    history: Ghost<Seq<LogRecord>>,
}

impl Executor {
    /// The stages this run executes, in execution order.
    pub closed spec fn stages(&self) -> Seq<Stage> {
        self.profile@
    }

    /// Where the run stands.
    pub closed spec fn run_state(&self) -> RunState {
        self.state
    }

    /// The latest monotonic-clock value the executor has seen.
    pub closed spec fn clock(&self) -> u64 {
        self.last_now
    }

    /// Every log entry emitted so far, oldest first.
    pub closed spec fn history(&self) -> Seq<LogRecord> {
        self.history@
    }

    /// While stage `stage` is running (its first sample arrived at clock
    /// value `start`): the stage exists, the clock has not moved
    /// backwards past `start`, and the newest entry belongs to this
    /// stage with its elapsed time measured from `start` to the latest
    /// clock value.
    pub open spec fn running_inv(&self, stage: usize, start: u64) -> bool {
        &&& (stage as int) < self.stages().len()
        &&& start <= self.clock()
        &&& self.history().len() > 0
        &&& self.history().last().stage == stage as nat
        &&& self.history().last().elapsed == self.clock() - start
    }

    /// When a non-empty profile's run has wound down normally, the
    /// newest entry belongs to the last stage.
    pub open spec fn done_inv(&self) -> bool {
        self.stages().len() > 0 ==> {
            &&& self.history().len() > 0
            &&& self.history().last().stage == self.stages().len() - 1
        }
    }

    /// Ties the control state to the history.
    pub open spec fn state_inv(&self) -> bool {
        match self.run_state() {
            RunState::Idle => self.history().len() == 0,
            RunState::Opening => self.history().len() == 0,
            RunState::FirstTick => self.history().len() == 0 && self.stages().len() > 0,
            RunState::AwaitTick { stage, start } => self.running_inv(stage, start),
            RunState::AwaitIo { stage, start } => self.running_inv(stage, start),
            RunState::Closing => self.done_inv(),
            RunState::Completed => self.done_inv(),
            RunState::Aborted => true,
        }
    }

    /// The executor's invariant; every reachable executor satisfies it.
    pub open spec fn inv(&self) -> bool {
        &&& all_stages_wf(self.stages())
        &&& stages_in_order(self.history())
        &&& elapsed_in_order(self.history())
        &&& entries_wf(self.stages(), self.history())
        &&& self.state_inv()
    }

    /// Creates an idle executor over `profile`.
    pub fn new(profile: Profile) -> (e: Executor)
        requires
            profile.wf(),
        ensures
            e.inv(),
            e.run_state() == RunState::Idle,
            e.stages() == profile@,
            e.history() == Seq::<LogRecord>::empty(),
            e.clock() == 0,
    {
        Executor {
            profile,
            state: RunState::Idle,
            last_now: 0,
            history: Ghost(Seq::empty()),
        }
    }

    /// Reports what the run stands at.
    pub fn state(&self) -> (s: RunState)
        ensures
            s == self.run_state(),
    {
        self.state
    }

    /// Starts the run: the caller must now open the log file.
    pub fn start(&mut self) -> (c: Command)
        requires
            old(self).inv(),
            old(self).run_state() == RunState::Idle,
        ensures
            final(self).inv(),
            final(self).stages() == old(self).stages(),
            final(self).history() == old(self).history(),
            final(self).clock() == old(self).clock(),
            final(self).run_state() == RunState::Opening,
            c == Command::OpenLog,
    {
        self.state = RunState::Opening;
        Command::OpenLog
    }

    /// Reports the outcome of opening the log file. A failed open is
    /// fatal; over an empty profile the run goes straight to closing the
    /// file; otherwise stage 0 awaits its first sample.
    pub fn on_opened(&mut self, ok: bool) -> (c: Command)
        requires
            old(self).inv(),
            old(self).run_state() == RunState::Opening,
        ensures
            final(self).inv(),
            final(self).stages() == old(self).stages(),
            final(self).history() == old(self).history(),
            final(self).clock() == old(self).clock(),
            !ok ==> final(self).run_state() == RunState::Aborted && c == Command::Halt,
            ok && old(self).stages().len() == 0 ==> final(self).run_state() == RunState::Closing
                && c == Command::CloseLog,
            ok && old(self).stages().len() > 0 ==> final(self).run_state() == RunState::FirstTick
                && c == Command::RequestTick,
    {
        if !ok {
            self.state = RunState::Aborted;
            Command::Halt
        } else if self.profile.len() == 0 {
            self.state = RunState::Closing;
            Command::CloseLog
        } else {
            self.state = RunState::FirstTick;
            Command::RequestTick
        }
    }

    /// Reports a clock/sensor sample (`reading` is `None` when the read
    /// failed). The clock is monotonic, so `now` is never behind the
    /// last sample.
    ///
    /// While the active stage's duration has not elapsed, the tick emits
    /// one log line and one heater command: the heater goes high exactly
    /// when the effective reading is strictly below the stage target (a
    /// reading equal to the target drives it low), and a failed read is
    /// logged as the fallback reading with the run carrying on. Once the
    /// duration has elapsed the run advances to the next stage — whose
    /// first entry it emits at once, with elapsed restarted at zero — or,
    /// past the last stage, moves to closing the log file.
    pub fn on_tick(&mut self, now: u64, reading: Option<u32>) -> (c: Command)
        requires
            old(self).inv(),
            old(self).run_state() == RunState::FirstTick || old(self).run_state() is AwaitTick,
            now >= old(self).clock(),
        ensures
            final(self).inv(),
            final(self).stages() == old(self).stages(),
            old(self).run_state() == RunState::FirstTick ==> {
                let target = old(self).stages()[0].target_centi;
                &&& final(self).clock() == now
                &&& final(self).run_state() == (RunState::AwaitIo { stage: 0, start: now })
                &&& final(self).history() == old(self).history().push(
                    tick_entry(0, 0, target, reading),
                )
                &&& (c matches Command::AppendAndSet { line, heater_on }
                    && line@ == log_line_spec(0, target as nat, effective_temp(reading) as nat)
                    && heater_on == heater_on_spec(effective_temp(reading), target))
            },
            old(self).run_state() matches RunState::AwaitTick { stage, start } ==> {
                let st = old(self).stages()[stage as int];
                if now - start < st.duration_secs {
                    let elapsed = (now - start) as nat;
                    &&& final(self).clock() == now
                    &&& final(self).run_state() == (RunState::AwaitIo { stage, start })
                    &&& final(self).history() == old(self).history().push(
                        tick_entry(stage as nat, elapsed, st.target_centi, reading),
                    )
                    &&& (c matches Command::AppendAndSet { line, heater_on }
                        && line@ == log_line_spec(
                            elapsed,
                            st.target_centi as nat,
                            effective_temp(reading) as nat,
                        )
                        && heater_on == heater_on_spec(effective_temp(reading), st.target_centi))
                } else if stage + 1 < old(self).stages().len() {
                    let next = old(self).stages()[stage + 1];
                    &&& final(self).clock() == now
                    &&& final(self).run_state() == (RunState::AwaitIo {
                        stage: (stage + 1) as usize,
                        start: now,
                    })
                    &&& final(self).history() == old(self).history().push(
                        tick_entry((stage + 1) as nat, 0, next.target_centi, reading),
                    )
                    &&& (c matches Command::AppendAndSet { line, heater_on }
                        && line@ == log_line_spec(
                            0,
                            next.target_centi as nat,
                            effective_temp(reading) as nat,
                        )
                        && heater_on == heater_on_spec(effective_temp(reading), next.target_centi))
                } else {
                    &&& final(self).clock() == now
                    &&& final(self).run_state() == RunState::Closing
                    &&& final(self).history() == old(self).history()
                    &&& c == Command::CloseLog
                }
            },
    {
        let actual: u32 = resolve_reading(reading);
        match self.state {
            RunState::FirstTick => {
                let st = self.profile.stage_at(0);
                let on = heater_command(actual, st.target_centi);
                let line = log_line(0, st.target_centi, actual);
                self.state = RunState::AwaitIo { stage: 0, start: now };
                self.last_now = now;
                self.history = Ghost(self.history@.push(tick_entry(0, 0, st.target_centi, reading)));
                proof {
                    let r = tick_entry(0, 0, st.target_centi, reading);
                    lemma_push_in_order(old(self).history(), r);
                    lemma_push_entry_wf(self.stages(), old(self).history(), r);
                    assert(self.history@.last() == r);
                }
                Command::AppendAndSet { line, heater_on: on }
            }
            RunState::AwaitTick { stage, start } => {
                let n: usize = self.profile.len();
                let st = self.profile.stage_at(stage);
                if now - start < st.duration_secs as u64 {
                    let elapsed: u64 = now - start;
                    let on = heater_command(actual, st.target_centi);
                    let line = log_line(elapsed, st.target_centi, actual);
                    self.state = RunState::AwaitIo { stage, start };
                    self.last_now = now;
                    self.history = Ghost(self.history@.push(
                        tick_entry(stage as nat, elapsed as nat, st.target_centi, reading),
                    ));
                    proof {
                        let r = tick_entry(stage as nat, elapsed as nat, st.target_centi, reading);
                        lemma_push_in_order(old(self).history(), r);
                        lemma_push_entry_wf(self.stages(), old(self).history(), r);
                        assert(self.history@.last() == r);
                    }
                    Command::AppendAndSet { line, heater_on: on }
                } else if stage + 1 < n {
                    let next = self.profile.stage_at(stage + 1);
                    let on = heater_command(actual, next.target_centi);
                    let line = log_line(0, next.target_centi, actual);
                    self.state = RunState::AwaitIo { stage: stage + 1, start: now };
                    self.last_now = now;
                    self.history = Ghost(self.history@.push(
                        tick_entry((stage + 1) as nat, 0, next.target_centi, reading),
                    ));
                    proof {
                        let r = tick_entry((stage + 1) as nat, 0, next.target_centi, reading);
                        lemma_push_in_order(old(self).history(), r);
                        lemma_push_entry_wf(self.stages(), old(self).history(), r);
                        assert(self.history@.last() == r);
                    }
                    Command::AppendAndSet { line, heater_on: on }
                } else {
                    self.state = RunState::Closing;
                    self.last_now = now;
                    Command::CloseLog
                }
            }
            _ => vstd::pervasive::unreached(),
        }
    }

    /// Reports the outcome of appending the latest line (`append_ok`)
    /// and of driving the heater (`set_ok`). Either failure is fatal and
    /// halts the run at once: no further entry is emitted, no further
    /// stage runs, and the log file is not closed. Otherwise the stage
    /// awaits its next sample.
    pub fn on_io(&mut self, append_ok: bool, set_ok: bool) -> (c: Command)
        requires
            old(self).inv(),
            old(self).run_state() is AwaitIo,
        ensures
            final(self).inv(),
            final(self).stages() == old(self).stages(),
            final(self).history() == old(self).history(),
            final(self).clock() == old(self).clock(),
            append_ok && set_ok ==> (old(self).run_state() matches RunState::AwaitIo {
                stage,
                start,
            } ==> final(self).run_state() == (RunState::AwaitTick { stage, start }))
                && c == Command::RequestTick,
            !(append_ok && set_ok) ==> final(self).run_state() == RunState::Aborted
                && c == Command::Halt,
    {
        match self.state {
            RunState::AwaitIo { stage, start } => {
                if append_ok && set_ok {
                    self.state = RunState::AwaitTick { stage, start };
                    Command::RequestTick
                } else {
                    self.state = RunState::Aborted;
                    Command::Halt
                }
            }
            _ => vstd::pervasive::unreached(),
        }
    }

    /// Reports the outcome of closing the log file: the run completes,
    /// or aborts on a failed close. Either way the file is never closed
    /// a second time.
    pub fn on_closed(&mut self, ok: bool) -> (c: Command)
        requires
            old(self).inv(),
            old(self).run_state() == RunState::Closing,
        ensures
            final(self).inv(),
            final(self).stages() == old(self).stages(),
            final(self).history() == old(self).history(),
            final(self).clock() == old(self).clock(),
            ok ==> final(self).run_state() == RunState::Completed,
            !ok ==> final(self).run_state() == RunState::Aborted,
            c == Command::Halt,
    {
        if ok {
            self.state = RunState::Completed;
        } else {
            self.state = RunState::Aborted;
        }
        Command::Halt
    }
}

/// Law: a run over a non-empty profile that has wound down normally
/// (it is closing the log file or has completed) visited every stage:
/// each stage index appears in the history. With `lemma_stage_monotone`,
/// `lemma_stage_contiguous` and `lemma_stage_no_skip` this makes the
/// visit order exact: the stages appear in list order, exactly once
/// each, as contiguous blocks with none skipped.
pub proof fn lemma_run_visits_all_stages(e: &Executor, s: nat)
    requires
        e.inv(),
        e.run_state() == RunState::Completed || e.run_state() == RunState::Closing,
        s < e.stages().len(),
    ensures
        exists|m: int| 0 <= m < e.history().len() && (#[trigger] e.history()[m]).stage == s,
{
    lemma_all_stages_visited(e.history(), s);
}

/// Law: within one stage successive log entries' elapsed values never
/// decrease, and the first entry of a new stage restarts elapsed at
/// zero.
pub proof fn lemma_run_elapsed_in_order(e: &Executor, k: int)
    requires
        e.inv(),
        0 < k < e.history().len(),
    ensures
        e.history()[k].stage == e.history()[k - 1].stage ==> e.history()[k].elapsed >= e.history()[
            k - 1
        ].elapsed,
        e.history()[k].stage != e.history()[k - 1].stage ==> e.history()[k].elapsed == 0,
{
}

/// Law: every logged heater command follows the exact-threshold policy
/// against the logged reading and the owning stage's target: high
/// exactly when the reading is strictly below the target, so a reading
/// equal to the target drives the heater low.
pub proof fn lemma_run_heater_policy(e: &Executor, k: int)
    requires
        e.inv(),
        0 <= k < e.history().len(),
    ensures
        e.history()[k].stage < e.stages().len(),
        e.history()[k].target == e.stages()[e.history()[k].stage as int].target_centi as nat,
        e.history()[k].heater_on == (e.history()[k].actual < e.history()[k].target),
{
}

} // verus!

//! Replaying a whole run over pre-recorded samples.
//!
//! `run_model` states, as one spec-level fold, everything a run produces
//! from a sequence of clock/sensor samples when storage and heater
//! accept every command; `run_recorded` drives the executor through
//! those samples and is proved to produce exactly that. It is the
//! library's own end-to-end driver — useful to preview a profile against
//! recorded data — while a live run is driven the same way by the
//! caller, one command at a time, with real outcomes reported back.

use vstd::prelude::*;

use crate::executor::Command;
use crate::executor::Executor;
use crate::executor::RunState;
use crate::executor::tick_entry;
use crate::logline::log_line_spec;
use crate::profile::Profile;
use crate::profile::Stage;
use crate::trace::LogRecord;

verus! {

/// One pre-recorded clock/sensor sample: the monotonic clock value at
/// the tick and the sensor's answer (`None` means the read failed).
#[derive(Clone, Copy, Debug)]
pub struct TickSample {
    pub now: u64,
    pub reading: Option<u32>,
}

/// What replaying a run produced: one log line and one heater command
/// per tick, in order, and whether the profile ran to completion within
/// the samples.
pub struct RunOutcome {
    pub lines: Vec<Vec<u8>>,
    pub heaters: Vec<bool>,
    pub completed: bool,
}

/// The model of a run under way: the control state, the latest clock
/// value, and every entry emitted so far.
pub ghost struct RunModel {
    pub state: RunState,
    pub clock: u64,
    pub trace: Seq<LogRecord>,
}

/// The model right after the log file was opened: an empty profile goes
/// straight to closing, anything else awaits stage 0's first sample.
pub open spec fn opened_model(stages: Seq<Stage>) -> RunModel {
    RunModel {
        state: if stages.len() == 0 {
            RunState::Closing
        } else {
            RunState::FirstTick
        },
        clock: 0,
        trace: Seq::empty(),
    }
}

/// One sample of the model, with every append and heater set
/// succeeding: exactly the transition `Executor::on_tick` makes,
/// followed by a successful `on_io`. A model already winding down
/// ignores the sample.
pub open spec fn tick_step(stages: Seq<Stage>, m: RunModel, s: TickSample) -> RunModel {
    match m.state {
        RunState::FirstTick => RunModel {
            state: RunState::AwaitTick { stage: 0, start: s.now },
            clock: s.now,
            trace: m.trace.push(tick_entry(0, 0, stages[0].target_centi, s.reading)),
        },
        RunState::AwaitTick { stage, start } => {
            let st = stages[stage as int];
            if s.now - start < st.duration_secs {
                RunModel {
                    state: RunState::AwaitTick { stage, start },
                    clock: s.now,
                    trace: m.trace.push(
                        tick_entry(stage as nat, (s.now - start) as nat, st.target_centi, s.reading),
                    ),
                }
            } else if stage + 1 < stages.len() {
                RunModel {
                    state: RunState::AwaitTick { stage: (stage + 1) as usize, start: s.now },
                    clock: s.now,
                    trace: m.trace.push(
                        tick_entry((stage + 1) as nat, 0, stages[stage + 1].target_centi, s.reading),
                    ),
                }
            } else {
                RunModel { state: RunState::Closing, clock: s.now, trace: m.trace }
            }
        },
        _ => m,
    }
}

/// The model after replaying all of `samples`, oldest first, from the
/// freshly opened log.
pub open spec fn run_model(stages: Seq<Stage>, samples: Seq<TickSample>) -> RunModel
    decreases samples.len(),
{
    if samples.len() == 0 {
        opened_model(stages)
    } else {
        tick_step(stages, run_model(stages, samples.drop_last()), samples.last())
    }
}

/// Replays a run over pre-recorded samples from a monotonic clock, with
/// storage and heater accepting every command: the outcome holds, tick
/// for tick, exactly the log lines and heater commands that `run_model`
/// gives for those samples, and reports completion exactly when the
/// whole profile's time elapsed within them.
pub fn run_recorded(profile: Profile, samples: &Vec<TickSample>) -> (out: RunOutcome)
    requires
        profile.wf(),
        forall|j: int, k: int|
            #![trigger samples@[j], samples@[k]]
            0 <= j <= k < samples@.len() ==> samples@[j].now <= samples@[k].now,
    ensures
        ({
            let m = run_model(profile@, samples@);
            &&& out.lines@.len() == m.trace.len()
            &&& out.heaters@.len() == m.trace.len()
            &&& forall|k: int|
                0 <= k < m.trace.len() ==> (#[trigger] out.lines@[k])@ == log_line_spec(
                    m.trace[k].elapsed,
                    m.trace[k].target,
                    m.trace[k].actual,
                )
            &&& forall|k: int|
                0 <= k < m.trace.len() ==> out.heaters@[k] == m.trace[k].heater_on
            &&& out.completed == (m.state == RunState::Closing)
        }),
{
    let ghost stages = profile@;
    let mut exec = Executor::new(profile);
    let mut lines: Vec<Vec<u8>> = Vec::new();
    let mut heaters: Vec<bool> = Vec::new();
    exec.start();
    exec.on_opened(true);
    proof {
        assert(samples@.take(0) =~= Seq::<TickSample>::empty());
    }
    let mut i: usize = 0;
    while i < samples.len()
        invariant
            exec.inv(),
            exec.stages() == stages,
            i <= samples@.len(),
            exec.run_state() == RunState::FirstTick || exec.run_state() is AwaitTick
                || exec.run_state() == RunState::Closing,
            ({
                let m = run_model(stages, samples@.take(i as int));
                &&& exec.run_state() == m.state
                &&& exec.clock() == m.clock
                &&& exec.history() == m.trace
            }),
            lines@.len() == exec.history().len(),
            heaters@.len() == exec.history().len(),
            forall|k: int|
                0 <= k < exec.history().len() ==> (#[trigger] lines@[k])@ == log_line_spec(
                    exec.history()[k].elapsed,
                    exec.history()[k].target,
                    exec.history()[k].actual,
                ),
            forall|k: int|
                0 <= k < exec.history().len() ==> heaters@[k] == exec.history()[k].heater_on,
            forall|j: int| i <= j < samples@.len() ==> exec.clock() <= (#[trigger] samples@[j]).now,
            forall|j: int, k: int|
                #![trigger samples@[j], samples@[k]]
                0 <= j <= k < samples@.len() ==> samples@[j].now <= samples@[k].now,
        decreases samples@.len() - i,
    {
        proof {
            assert(samples@.take(i + 1).drop_last() =~= samples@.take(i as int));
            assert(samples@.take(i + 1).last() == samples@[i as int]);
        }
        let s = samples[i];
        let winding_down = match exec.state() {
            RunState::Closing => true,
            _ => false,
        };
        if !winding_down {
            let c = exec.on_tick(s.now, s.reading);
            match c {
                Command::AppendAndSet { line, heater_on } => {
                    lines.push(line);
                    heaters.push(heater_on);
                    exec.on_io(true, true);
                }
                Command::CloseLog => {},
                _ => vstd::pervasive::unreached(),
            }
        }
        i += 1;
    }
    proof {
        assert(samples@.take(samples@.len() as int) =~= samples@);
    }
    let completed = match exec.state() {
        RunState::Closing => {
            exec.on_closed(true);
            true
        },
        _ => false,
    };
    RunOutcome { lines, heaters, completed }
}

} // verus!

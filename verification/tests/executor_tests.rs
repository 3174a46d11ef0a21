//! Whole-run scenarios against the executor, with simulated sensor,
//! clock, log and heater.

use reflow::control::{heater_command, resolve_reading};
use reflow::executor::{Command, Executor, RunState};
use reflow::profile::{Profile, Stage};

fn profile_of(pairs: &[(u32, u32)]) -> Profile {
    let stages: Vec<Stage> = pairs
        .iter()
        .map(|&(target_centi, duration_secs)| Stage { target_centi, duration_secs })
        .collect();
    Profile::from_stages(stages).expect("test profiles have positive durations")
}

/// Opens the log and replays `ticks` (clock value, sensor answer) until
/// the run halts or the ticks run out; every append and heater set
/// succeeds. Returns the log lines and the heater commands, in order.
fn drive(exec: &mut Executor, ticks: &[(u64, Option<u32>)]) -> (Vec<Vec<u8>>, Vec<bool>) {
    let mut lines: Vec<Vec<u8>> = Vec::new();
    let mut heaters: Vec<bool> = Vec::new();
    let mut next: usize = 0;

    let mut cmd = exec.start();
    assert!(matches!(cmd, Command::OpenLog));
    cmd = exec.on_opened(true);
    loop {
        match cmd {
            Command::RequestTick => {
                if next == ticks.len() {
                    break;
                }
                let (now, reading) = ticks[next];
                next += 1;
                cmd = exec.on_tick(now, reading);
            }
            Command::AppendAndSet { line, heater_on } => {
                lines.push(line);
                heaters.push(heater_on);
                cmd = exec.on_io(true, true);
            }
            Command::CloseLog => {
                cmd = exec.on_closed(true);
            }
            Command::Halt => break,
            Command::OpenLog => panic!("the log file is opened only once"),
        }
    }
    (lines, heaters)
}

#[test]
fn always_heats_below_target() {
    // One stage at 100.00 for 600 seconds, the sensor stuck at 50.00:
    // the heater must be driven high on every single tick.
    let mut exec = Executor::new(profile_of(&[(10000, 600)]));
    let ticks: Vec<(u64, Option<u32>)> = (0..601).map(|now| (now, Some(5000))).collect();
    let (lines, heaters) = drive(&mut exec, &ticks);
    assert_eq!(exec.state(), RunState::Completed);
    assert_eq!(lines.len(), 600);
    assert_eq!(heaters.len(), 600);
    assert!(heaters.iter().all(|&on| on));
}

#[test]
fn reading_equal_to_target_sets_low() {
    // Equality means "target reached": the heater goes low.
    let mut exec = Executor::new(profile_of(&[(10000, 5)]));
    let cmd = {
        exec.start();
        exec.on_opened(true);
        exec.on_tick(0, Some(10000))
    };
    match cmd {
        Command::AppendAndSet { heater_on, .. } => assert!(!heater_on),
        other => panic!("expected a tick, got {:?}", other),
    }
    assert!(!heater_command(10000, 10000));
    assert!(heater_command(9999, 10000));
}

#[test]
fn sensor_failure_logs_fallback_and_continues() {
    let mut exec = Executor::new(profile_of(&[(10000, 10)]));
    let ticks = [
        (0, Some(9000)),
        (1, None), // one failed read
        (2, Some(9000)),
        (10, Some(9000)),
    ];
    let (lines, heaters) = drive(&mut exec, &ticks);
    // The failed tick is logged with the 0.00 fallback and the run goes on.
    assert_eq!(lines.len(), 3);
    assert_eq!(
        lines[1],
        "Time: 1s, Target Temp: 100.00°C, Actual Temp: 0.00°C\n".as_bytes().to_vec()
    );
    assert!(heaters[1]); // the fallback is below target, so it heats
    assert_eq!(
        lines[2],
        "Time: 2s, Target Temp: 100.00°C, Actual Temp: 90.00°C\n".as_bytes().to_vec()
    );
    assert_eq!(exec.state(), RunState::Completed);
    assert_eq!(resolve_reading(None), 0);
    assert_eq!(resolve_reading(Some(123)), 123);
}

#[test]
fn append_failure_halts_run() {
    let mut exec = Executor::new(profile_of(&[(10000, 10), (20000, 10)]));
    exec.start();
    exec.on_opened(true);
    let cmd = exec.on_tick(0, Some(5000));
    assert!(matches!(cmd, Command::AppendAndSet { .. }));
    // The append fails: the run halts at once — no more entries, no
    // second stage, and no close of the log file.
    let cmd = exec.on_io(false, true);
    assert_eq!(cmd, Command::Halt);
    assert_eq!(exec.state(), RunState::Aborted);
}

#[test]
fn heater_failure_halts_run() {
    let mut exec = Executor::new(profile_of(&[(10000, 10)]));
    exec.start();
    exec.on_opened(true);
    exec.on_tick(0, Some(5000));
    let cmd = exec.on_io(true, false);
    assert_eq!(cmd, Command::Halt);
    assert_eq!(exec.state(), RunState::Aborted);
}

#[test]
fn open_failure_halts_run() {
    let mut exec = Executor::new(profile_of(&[(10000, 10)]));
    exec.start();
    let cmd = exec.on_opened(false);
    assert_eq!(cmd, Command::Halt);
    assert_eq!(exec.state(), RunState::Aborted);
}

#[test]
fn close_failure_aborts_after_last_stage() {
    let mut exec = Executor::new(profile_of(&[(10000, 1)]));
    exec.start();
    exec.on_opened(true);
    exec.on_tick(0, Some(5000));
    exec.on_io(true, true);
    let cmd = exec.on_tick(1, Some(5000));
    assert_eq!(cmd, Command::CloseLog);
    let cmd = exec.on_closed(false);
    assert_eq!(cmd, Command::Halt);
    assert_eq!(exec.state(), RunState::Aborted);
}

#[test]
fn empty_profile_opens_and_closes_only() {
    let mut exec = Executor::new(profile_of(&[]));
    let cmd = exec.start();
    assert_eq!(cmd, Command::OpenLog);
    let cmd = exec.on_opened(true);
    assert_eq!(cmd, Command::CloseLog);
    let cmd = exec.on_closed(true);
    assert_eq!(cmd, Command::Halt);
    assert_eq!(exec.state(), RunState::Completed);
}

#[test]
fn elapsed_never_decreases_within_a_stage() {
    let mut exec = Executor::new(profile_of(&[(10000, 5)]));
    // Uneven tick cadence, including repeated clock values.
    let ticks = [
        (0, Some(1000)),
        (0, Some(1000)),
        (3, Some(1000)),
        (3, Some(1000)),
        (4, Some(1000)),
        (5, Some(1000)),
    ];
    let (lines, _) = drive(&mut exec, &ticks);
    assert_eq!(lines.len(), 5);
    let elapsed: Vec<String> = lines
        .iter()
        .map(|l| {
            let text = String::from_utf8(l.clone()).unwrap();
            text["Time: ".len()..text.find('s').unwrap()].to_string()
        })
        .collect();
    assert_eq!(elapsed, vec!["0", "0", "3", "3", "4"]);
    assert_eq!(exec.state(), RunState::Completed);
}

#[test]
fn stages_run_in_order_once_each() {
    let mut exec = Executor::new(profile_of(&[(1000, 1), (2000, 1), (3000, 1)]));
    let ticks: Vec<(u64, Option<u32>)> = (0..4).map(|now| (now, Some(0))).collect();
    let (lines, _) = drive(&mut exec, &ticks);
    assert_eq!(exec.state(), RunState::Completed);
    let targets: Vec<String> = lines
        .iter()
        .map(|l| {
            let text = String::from_utf8(l.clone()).unwrap();
            let tail = &text[text.find("Target Temp: ").unwrap() + "Target Temp: ".len()..];
            tail[..tail.find('°').unwrap()].to_string()
        })
        .collect();
    assert_eq!(targets, vec!["10.00", "20.00", "30.00"]);
}

#[test]
fn end_to_end_two_stages_two_ticks_each() {
    // Profile [(100.0, 2 s), (50.0, 2 s)], two ticks per stage, sensor
    // stuck at 200.0: the heater stays low on all four ticks, four lines
    // are logged, and elapsed restarts between the stages.
    let mut exec = Executor::new(profile_of(&[(10000, 2), (5000, 2)]));
    let ticks: Vec<(u64, Option<u32>)> = (0..5).map(|now| (now, Some(20000))).collect();
    let (lines, heaters) = drive(&mut exec, &ticks);
    assert_eq!(exec.state(), RunState::Completed);
    assert_eq!(heaters, vec![false, false, false, false]);
    let expected = [
        "Time: 0s, Target Temp: 100.00°C, Actual Temp: 200.00°C\n",
        "Time: 1s, Target Temp: 100.00°C, Actual Temp: 200.00°C\n",
        "Time: 0s, Target Temp: 50.00°C, Actual Temp: 200.00°C\n",
        "Time: 1s, Target Temp: 50.00°C, Actual Temp: 200.00°C\n",
    ];
    assert_eq!(lines.len(), 4);
    for (line, want) in lines.iter().zip(expected.iter()) {
        assert_eq!(line, &want.as_bytes().to_vec());
    }
}

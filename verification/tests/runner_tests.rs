//! Replaying whole runs over pre-recorded samples.

use reflow::profile::{Profile, Stage};
use reflow::runner::{run_recorded, TickSample};

fn two_stage_profile() -> Profile {
    Profile::from_stages(vec![
        Stage { target_centi: 10000, duration_secs: 2 },
        Stage { target_centi: 5000, duration_secs: 2 },
    ])
    .expect("positive durations")
}

fn samples(pairs: &[(u64, Option<u32>)]) -> Vec<TickSample> {
    pairs.iter().map(|&(now, reading)| TickSample { now, reading }).collect()
}

#[test]
fn replay_end_to_end() {
    let ticks = samples(&[
        (0, Some(20000)),
        (1, Some(20000)),
        (2, Some(20000)),
        (3, Some(20000)),
        (4, Some(20000)),
    ]);
    let out = run_recorded(two_stage_profile(), &ticks);
    assert!(out.completed);
    assert_eq!(out.heaters, vec![false, false, false, false]);
    let expected = [
        "Time: 0s, Target Temp: 100.00°C, Actual Temp: 200.00°C\n",
        "Time: 1s, Target Temp: 100.00°C, Actual Temp: 200.00°C\n",
        "Time: 0s, Target Temp: 50.00°C, Actual Temp: 200.00°C\n",
        "Time: 1s, Target Temp: 50.00°C, Actual Temp: 200.00°C\n",
    ];
    assert_eq!(out.lines.len(), 4);
    for (line, want) in out.lines.iter().zip(expected.iter()) {
        assert_eq!(line, &want.as_bytes().to_vec());
    }
}

#[test]
fn replay_runs_out_of_samples() {
    let ticks = samples(&[(0, Some(2000)), (1, Some(2100))]);
    let out = run_recorded(two_stage_profile(), &ticks);
    // Stage 0's two seconds never elapsed within the samples.
    assert!(!out.completed);
    assert_eq!(out.lines.len(), 2);
    assert_eq!(out.heaters, vec![true, true]);
}

#[test]
fn replay_empty_profile_ignores_samples() {
    let empty = Profile::from_stages(Vec::new()).expect("an empty profile is valid");
    let ticks = samples(&[(0, Some(2000)), (7, None)]);
    let out = run_recorded(empty, &ticks);
    assert!(out.completed);
    assert!(out.lines.is_empty());
    assert!(out.heaters.is_empty());
}

#[test]
fn replay_logs_fallback_on_failed_read() {
    let ticks = samples(&[(0, Some(2000)), (1, None)]);
    let out = run_recorded(two_stage_profile(), &ticks);
    assert_eq!(
        out.lines[1],
        "Time: 1s, Target Temp: 100.00°C, Actual Temp: 0.00°C\n".as_bytes().to_vec()
    );
    assert_eq!(out.heaters, vec![true, true]);
}

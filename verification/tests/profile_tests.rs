//! Building and reading profiles.

use reflow::profile::{reflow_profile, Profile, Stage, PROFILE_DURATION_SECS};

#[test]
fn from_stages_accepts_positive_durations() {
    let stages = vec![
        Stage { target_centi: 10000, duration_secs: 2 },
        Stage { target_centi: 5000, duration_secs: 2 },
    ];
    let p = Profile::from_stages(stages).expect("positive durations must be accepted");
    assert_eq!(p.len(), 2);
    assert_eq!(p.stage_at(0), Stage { target_centi: 10000, duration_secs: 2 });
    assert_eq!(p.stage_at(1), Stage { target_centi: 5000, duration_secs: 2 });
}

#[test]
fn from_stages_rejects_zero_duration() {
    let stages = vec![
        Stage { target_centi: 10000, duration_secs: 2 },
        Stage { target_centi: 5000, duration_secs: 0 },
    ];
    assert!(Profile::from_stages(stages).is_none());
}

#[test]
fn from_stages_accepts_empty_profile() {
    let p = Profile::from_stages(Vec::new()).expect("an empty profile is a valid profile");
    assert_eq!(p.len(), 0);
}

#[test]
fn built_in_profile_stages() {
    let p = reflow_profile();
    assert_eq!(p.len(), 5);
    assert_eq!(p.stage_at(0), Stage { target_centi: 10000, duration_secs: 600 });
    assert_eq!(p.stage_at(1), Stage { target_centi: 15000, duration_secs: 300 });
    assert_eq!(p.stage_at(2), Stage { target_centi: 20000, duration_secs: 300 });
    assert_eq!(p.stage_at(3), Stage { target_centi: 25000, duration_secs: 300 });
    assert_eq!(p.stage_at(4), Stage { target_centi: 5000, duration_secs: 1500 });
}

#[test]
fn built_in_profile_total_duration_is_informational() {
    let p = reflow_profile();
    // The stages add up to 50 minutes; the nominal one-hour constant is
    // documentation, not a checked bound.
    assert_eq!(p.total_duration(), 3000);
    assert_eq!(PROFILE_DURATION_SECS, 3600);
}

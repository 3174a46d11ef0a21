//! The profile store: an immutable, ordered list of stages, each a
//! target temperature and a positive duration.

use vstd::prelude::*;

verus! {

/// One segment of a temperature profile: drive the oven toward
/// `target_centi` (hundredths of a degree Celsius) for `duration_secs`
/// seconds. Stages are immutable once defined.
#[derive(Clone, Copy, PartialEq, Eq, Structural, Debug)]
pub struct Stage {
    pub target_centi: u32,
    pub duration_secs: u32,
}

impl Stage {
    /// A stage is meaningful only with a positive duration.
    pub open spec fn wf(self) -> bool {
        self.duration_secs > 0
    }
}

/// An ordered list of stages; list order is execution order. A profile
/// is read-only once built: there is no operation that mutates it
/// during a run.
pub struct Profile {
    stages: Vec<Stage>,
}

impl View for Profile {
    type V = Seq<Stage>;

    closed spec fn view(&self) -> Seq<Stage> {
        self.stages@
    }
}

/// Every stage of the list has a positive duration.
pub open spec fn all_stages_wf(stages: Seq<Stage>) -> bool {
    forall|i: int| 0 <= i < stages.len() ==> (#[trigger] stages[i]).wf()
}

impl Profile {
    /// Every stage of the profile has a positive duration.
    pub open spec fn wf(&self) -> bool {
        all_stages_wf(self@)
    }

    /// Builds a profile, rejecting any stage whose duration is zero.
    pub fn from_stages(stages: Vec<Stage>) -> (r: Option<Profile>)
        ensures
            match r {
                Some(p) => p@ == stages@ && p.wf(),
                None => exists|i: int| 0 <= i < stages@.len() && !(#[trigger] stages@[i]).wf(),
            },
    {
        let mut i: usize = 0;
        while i < stages.len()
            invariant
                i <= stages@.len(),
                forall|j: int| 0 <= j < i ==> (#[trigger] stages@[j]).wf(),
            decreases stages@.len() - i,
        {
            if stages[i].duration_secs == 0 {
                return None;
            }
            i += 1;
        }
        Some(Profile { stages })
    }

    /// The number of stages.
    pub fn len(&self) -> (n: usize)
        ensures
            n == self@.len(),
    {
        self.stages.len()
    }

    /// The stage at position `i`.
    pub fn stage_at(&self, i: usize) -> (s: Stage)
        requires
            i < self@.len(),
        ensures
            s == self@[i as int],
    {
        self.stages[i]
    }

    /// Sum of all stage durations, in seconds.
    pub open spec fn total_duration_spec(stages: Seq<Stage>) -> int
        decreases stages.len(),
    {
        if stages.len() == 0 {
            0
        } else {
            Self::total_duration_spec(stages.drop_last()) + stages.last().duration_secs
        }
    }

    /// Adds up the stage durations. Purely informational: no check in
    /// the executor enforces any bound on the total.
    pub fn total_duration(&self) -> (t: u64)
        requires
            Self::total_duration_spec(self@) <= u64::MAX,
        ensures
            t == Self::total_duration_spec(self@),
    {
        let mut t: u64 = 0;
        let mut i: usize = 0;
        while i < self.stages.len()
            invariant
                i <= self@.len(),
                t == Self::total_duration_spec(self@.take(i as int)),
                Self::total_duration_spec(self@) <= u64::MAX,
            decreases self@.len() - i,
        {
            proof {
                assert(self@.take(i + 1).drop_last() =~= self@.take(i as int));
                assert(self@.take(i + 1).last() == self@[i as int]);
                lemma_total_duration_prefix(self@, i + 1);
            }
            t = t + self.stages[i].duration_secs as u64;
            i += 1;
        }
        proof {
            assert(self@.take(self@.len() as int) =~= self@);
        }
        t
    }
}

/// The running total over any prefix is non-negative and no more than
/// the total over the whole sequence.
proof fn lemma_total_duration_prefix(stages: Seq<Stage>, n: int)
    requires
        0 <= n <= stages.len(),
    ensures
        0 <= Profile::total_duration_spec(stages.take(n)),
        Profile::total_duration_spec(stages.take(n)) <= Profile::total_duration_spec(stages),
    decreases stages.len(),
{
    lemma_total_duration_nonneg(stages.take(n));
    if n == stages.len() {
        assert(stages.take(n) =~= stages);
    } else {
        assert(stages.drop_last().take(n) =~= stages.take(n));
        lemma_total_duration_prefix(stages.drop_last(), n);
    }
}

/// A sum of durations is non-negative.
proof fn lemma_total_duration_nonneg(stages: Seq<Stage>)
    ensures
        0 <= Profile::total_duration_spec(stages),
    decreases stages.len(),
{
    if stages.len() > 0 {
        lemma_total_duration_nonneg(stages.drop_last());
    }
}

/// The built-in reflow profile: preheat to 100 C over ten minutes, raise
/// to 150 C and 200 C over five minutes each, hold the 250 C reflow peak
/// for five minutes, then cool toward 50 C over twenty-five minutes.
/// Temperatures in hundredths of a degree Celsius.
pub open spec fn reflow_profile_spec() -> Seq<Stage> {
    seq![
        Stage { target_centi: 10000, duration_secs: 600 },
        Stage { target_centi: 15000, duration_secs: 300 },
        Stage { target_centi: 20000, duration_secs: 300 },
        Stage { target_centi: 25000, duration_secs: 300 },
        Stage { target_centi: 5000, duration_secs: 1500 },
    ]
}

/// A nominal whole-profile duration in seconds (one hour). Informational
/// only: nothing enforces it, and the built-in profile's stages add up
/// to less.
pub const PROFILE_DURATION_SECS: u64 = 3600;

/// Builds the built-in reflow profile.
pub fn reflow_profile() -> (p: Profile)
    ensures
        p@ == reflow_profile_spec(),
        p.wf(),
{
    let mut stages: Vec<Stage> = Vec::new();
    stages.push(Stage { target_centi: 10000, duration_secs: 600 });
    stages.push(Stage { target_centi: 15000, duration_secs: 300 });
    stages.push(Stage { target_centi: 20000, duration_secs: 300 });
    stages.push(Stage { target_centi: 25000, duration_secs: 300 });
    stages.push(Stage { target_centi: 5000, duration_secs: 1500 });
    let p = Profile { stages };
    proof {
        assert(p@ =~= reflow_profile_spec());
        assert(forall|i: int| 0 <= i < p@.len() ==> (#[trigger] p@[i]).wf()) by {
            assert(p@.len() == 5);
        }
    }
    p
}

} // verus!

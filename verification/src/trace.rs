//! The observable history of a run.
//!
//! Every tick the executor emits one log entry; this module gives the
//! ghost record of such an entry, the ordering properties every run
//! history satisfies, and the laws that follow from them: a run visits
//! stages in list order, never revisits one, never skips one, and within
//! a stage its elapsed times never decrease.

use vstd::prelude::*;

use crate::profile::Stage;

verus! {

/// One emitted log entry, as ghost data: the stage that was active, the
/// whole seconds elapsed within that stage, the stage's target, the
/// effective reading, and the heater command the same tick decided.
pub ghost struct LogRecord {
    pub stage: nat,
    pub elapsed: nat,
    pub target: nat,
    pub actual: nat,
    pub heater_on: bool,
}

/// Stages appear in list order: the first record belongs to stage 0,
/// and consecutive records either stay in the same stage or advance to
/// the next one.
pub open spec fn stages_in_order(tr: Seq<LogRecord>) -> bool {
    &&& tr.len() > 0 ==> tr[0].stage == 0
    &&& forall|j: int, k: int|
        #![trigger tr[j], tr[k]]
        0 <= j && k == j + 1 && k < tr.len() ==> tr[k].stage == tr[j].stage || tr[k].stage == tr[
            j
        ].stage + 1
}

/// Within one stage elapsed never decreases, and the first record of a
/// new stage restarts elapsed at zero.
pub open spec fn elapsed_in_order(tr: Seq<LogRecord>) -> bool {
    forall|j: int, k: int|
        #![trigger tr[j], tr[k]]
        0 <= j && k == j + 1 && k < tr.len() ==> {
            if tr[k].stage == tr[j].stage {
                tr[k].elapsed >= tr[j].elapsed
            } else {
                tr[k].elapsed == 0
            }
        }
}

/// Every entry of the history names a real stage of `stages`, carries
/// that stage's target, and its heater command follows the bang-bang
/// policy against its own reading and target.
pub open spec fn entries_wf(stages: Seq<Stage>, tr: Seq<LogRecord>) -> bool {
    forall|k: int|
        0 <= k < tr.len() ==> {
            let r = #[trigger] tr[k];
            &&& r.stage < stages.len()
            &&& r.target == stages[r.stage as int].target_centi as nat
            &&& r.heater_on == (r.actual < r.target)
        }
}

/// Appending an entry that either stays in the newest entry's stage
/// without going back in elapsed time, or opens the next stage at
/// elapsed zero, keeps a history in order.
pub proof fn lemma_push_in_order(tr: Seq<LogRecord>, r: LogRecord)
    requires
        stages_in_order(tr),
        elapsed_in_order(tr),
        tr.len() == 0 ==> r.stage == 0,
        tr.len() > 0 ==> (r.stage == tr.last().stage && r.elapsed >= tr.last().elapsed) || (
        r.stage == tr.last().stage + 1 && r.elapsed == 0),
    ensures
        stages_in_order(tr.push(r)),
        elapsed_in_order(tr.push(r)),
{
    let tr2 = tr.push(r);
    if tr.len() > 0 {
        assert(tr2[0] == tr[0]);
    }
    assert forall|j: int, k: int|
        #![trigger tr2[j], tr2[k]]
        0 <= j && k == j + 1 && k < tr2.len() implies {
        &&& (tr2[k].stage == tr2[j].stage || tr2[k].stage == tr2[j].stage + 1)
        &&& if tr2[k].stage == tr2[j].stage {
            tr2[k].elapsed >= tr2[j].elapsed
        } else {
            tr2[k].elapsed == 0
        }
    } by {
        if k < tr.len() {
            assert(tr2[j] == tr[j]);
            assert(tr2[k] == tr[k]);
        } else {
            assert(tr2[k] == r);
            assert(tr2[j] == tr.last());
        }
    }
}

/// Appending an entry that is itself well-formed keeps the whole
/// history well-formed.
pub proof fn lemma_push_entry_wf(stages: Seq<Stage>, tr: Seq<LogRecord>, r: LogRecord)
    requires
        entries_wf(stages, tr),
        r.stage < stages.len(),
        r.target == stages[r.stage as int].target_centi as nat,
        r.heater_on == (r.actual < r.target),
    ensures
        entries_wf(stages, tr.push(r)),
{
    let tr2 = tr.push(r);
    assert forall|k: int| 0 <= k < tr2.len() implies {
        let e = #[trigger] tr2[k];
        &&& e.stage < stages.len()
        &&& e.target == stages[e.stage as int].target_centi as nat
        &&& e.heater_on == (e.actual < e.target)
    } by {
        if k < tr.len() {
            assert(tr2[k] == tr[k]);
        } else {
            assert(tr2[k] == r);
        }
    }
}

/// A run never revisits a stage: along an in-order history the stage
/// indices are monotone, so once the run has moved past a stage no later
/// record belongs to it.
pub proof fn lemma_stage_monotone(tr: Seq<LogRecord>, j: int, k: int)
    requires
        stages_in_order(tr),
        0 <= j <= k < tr.len(),
    ensures
        tr[j].stage <= tr[k].stage,
    decreases k - j,
{
    if j < k {
        lemma_stage_monotone(tr, j, k - 1);
    }
}

/// A run visits each stage at most once: the entries of one stage form
/// one contiguous block — between two entries of a stage there is no
/// entry of any other stage.
pub proof fn lemma_stage_contiguous(tr: Seq<LogRecord>, j: int, m: int, k: int)
    requires
        stages_in_order(tr),
        0 <= j <= m <= k < tr.len(),
        tr[j].stage == tr[k].stage,
    ensures
        tr[m].stage == tr[j].stage,
{
    lemma_stage_monotone(tr, j, m);
    lemma_stage_monotone(tr, m, k);
}

/// A run never skips a stage: every stage index between two observed
/// ones is itself observed somewhere in between.
pub proof fn lemma_stage_no_skip(tr: Seq<LogRecord>, j: int, k: int, s: nat)
    requires
        stages_in_order(tr),
        0 <= j <= k < tr.len(),
        tr[j].stage <= s <= tr[k].stage,
    ensures
        exists|m: int| j <= m <= k && (#[trigger] tr[m]).stage == s,
    decreases k - j,
{
    if tr[k].stage == s {
        assert(tr[k].stage == s);
    } else {
        lemma_stage_no_skip(tr, j, k - 1, s);
    }
}

/// Every stage index up to the newest record's stage was visited: an
/// in-order history starts at stage 0 and skips nothing on the way.
pub proof fn lemma_all_stages_visited(tr: Seq<LogRecord>, s: nat)
    requires
        stages_in_order(tr),
        tr.len() > 0,
        s <= tr.last().stage,
    ensures
        exists|m: int| 0 <= m < tr.len() && (#[trigger] tr[m]).stage == s,
{
    lemma_stage_no_skip(tr, 0, tr.len() - 1, s);
}

} // verus!

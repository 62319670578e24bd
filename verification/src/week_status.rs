//! The status of a single calendar week, and the ghost-level vocabulary used
//! throughout the timeline contracts: which entries are skipped, how many are
//! active, and which rotation phase (logical delta) each active entry carries.

use vstd::prelude::*;

verus! {

/// A week number counted from a fixed epoch; weeks before the epoch are not
/// representable.
pub type AbsWeek = usize;

/// The rotation-phase counter: increases by exactly one for each consecutive
/// active entry in timeline order, and is left unchanged by skipped entries.
pub type LogicalDelta = usize;

/// Opaque identifier of a weekly rule template; the timeline only stores it
/// and hands it back as a lookup key.
pub type RuleId = i64;

/// What one week of the timeline holds: either an active shift generated from
/// a rule at a given rotation phase, or an explicit skip that consumes no
/// phase value.
#[derive(Clone, Copy, Debug, PartialEq, Eq, Structural)]
pub enum WeekStatus {
    Active { logical_delta: LogicalDelta, rule_id: RuleId },
    Skipped,
}

/// The reasons an append can be refused.
#[derive(Clone, Copy, Debug, PartialEq, Eq, Structural)]
pub enum AppendWeekErrorKind {
    /// A resubmitted pattern disagrees with an already-recorded week.
    AttemptedToOverwrite,
    /// The requested start would leave a gap after the current timeline end.
    NotConsecutiveShifts,
    /// The addressed week precedes the timeline's base week.
    UnderFlow,
}

impl WeekStatus {
    /// Whether this entry is the skipped variant.
    pub fn is_skipped(&self) -> (b: bool)
        ensures
            b == status_skipped(*self),
    {
        match self {
            WeekStatus::Skipped => true,
            WeekStatus::Active { .. } => false,
        }
    }
}

/// Whether a week status is the skipped variant.
pub open spec fn status_skipped(w: WeekStatus) -> bool {
    match w {
        WeekStatus::Skipped => true,
        WeekStatus::Active { .. } => false,
    }
}

/// The rotation phase carried by an active entry (meaningless for skips).
pub open spec fn status_delta(w: WeekStatus) -> LogicalDelta {
    match w {
        WeekStatus::Skipped => 0,
        WeekStatus::Active { logical_delta, .. } => logical_delta,
    }
}

/// The rule identifier carried by an active entry (meaningless for skips).
pub open spec fn status_rule(w: WeekStatus) -> RuleId {
    match w {
        WeekStatus::Skipped => 0,
        WeekStatus::Active { rule_id, .. } => rule_id,
    }
}

/// How many entries of the sequence are active.
pub open spec fn count_active(s: Seq<WeekStatus>) -> nat
    decreases s.len(),
{
    if s.len() == 0 {
        0
    } else {
        count_active(s.drop_last()) + if status_skipped(s.last()) {
            0nat
        } else {
            1nat
        }
    }
}

/// The phase of the most recent active entry, searched backwards; `None` when
/// no entry is active.
pub open spec fn last_active_delta(s: Seq<WeekStatus>) -> Option<LogicalDelta>
    decreases s.len(),
{
    if s.len() == 0 {
        None
    } else if !status_skipped(s.last()) {
        Some(status_delta(s.last()))
    } else {
        last_active_delta(s.drop_last())
    }
}

/// The phase the next active entry appended to `s` receives: one past the most
/// recent active phase, or `initial` when no active entry exists yet.
pub open spec fn next_delta(s: Seq<WeekStatus>, initial: LogicalDelta) -> nat {
    match last_active_delta(s) {
        Some(d) => (d + 1) as nat,
        None => initial as nat,
    }
}

/// Phase consistency of a timeline: every active entry at position `i`
/// carries the phase `initial` plus the number of active entries before `i`.
/// This is the closed form of "each consecutive active entry increments the
/// phase by one, and skips leave it untouched".
pub open spec fn wf_timeline(s: Seq<WeekStatus>, initial: LogicalDelta) -> bool {
    forall|i: int|
        0 <= i < s.len() && !status_skipped(s[i]) ==> status_delta(s[i]) == initial
            + count_active(s.take(i))
}

/// The number of active entries never exceeds the sequence's length.
pub proof fn lemma_count_active_le_len(s: Seq<WeekStatus>)
    ensures
        count_active(s) <= s.len(),
    decreases s.len(),
{
    if s.len() > 0 {
        lemma_count_active_le_len(s.drop_last());
    }
}

/// Counting active entries distributes over taking one more element.
pub proof fn lemma_count_active_take_succ(s: Seq<WeekStatus>, i: int)
    requires
        0 <= i < s.len(),
    ensures
        count_active(s.take(i + 1)) == count_active(s.take(i)) + if status_skipped(s[i]) {
            0nat
        } else {
            1nat
        },
{
    assert(s.take(i + 1).drop_last() =~= s.take(i));
    assert(s.take(i + 1).last() == s[i]);
}

/// On a phase-consistent timeline, the backward search for the most recent
/// active phase agrees with the closed form: it returns `initial +
/// count_active(s) - 1` when any entry is active, and `None` otherwise.
pub proof fn lemma_last_active_delta_wf(s: Seq<WeekStatus>, initial: LogicalDelta)
    requires
        wf_timeline(s, initial),
    ensures
        count_active(s) == 0 ==> last_active_delta(s) is None,
        count_active(s) > 0 ==> last_active_delta(s) == Some::<LogicalDelta>(
            (initial + count_active(s) - 1) as LogicalDelta,
        ),
        next_delta(s, initial) == initial + count_active(s),
    decreases s.len(),
{
    if s.len() > 0 {
        let prefix = s.drop_last();
        assert(prefix =~= s.take(s.len() - 1));
        assert(wf_timeline(prefix, initial)) by {
            assert forall|i: int| 0 <= i < prefix.len() && !status_skipped(prefix[i]) implies
                status_delta(prefix[i]) == initial + count_active(prefix.take(i)) by {
                assert(prefix[i] == s[i]);
                assert(prefix.take(i) =~= s.take(i));
            }
        }
        lemma_last_active_delta_wf(prefix, initial);
        lemma_count_active_le_len(prefix);
        if !status_skipped(s.last()) {
            assert(s.last() == s[s.len() - 1]);
            assert(status_delta(s.last()) == initial + count_active(s.take(s.len() - 1)));
        }
    }
}

/// Appending one entry preserves phase consistency, provided an active entry
/// carries the successor phase.
pub proof fn lemma_wf_push(s: Seq<WeekStatus>, initial: LogicalDelta, w: WeekStatus)
    requires
        wf_timeline(s, initial),
        !status_skipped(w) ==> status_delta(w) == initial + count_active(s),
    ensures
        wf_timeline(s.push(w), initial),
{
    let t = s.push(w);
    assert forall|i: int| 0 <= i < t.len() && !status_skipped(t[i]) implies status_delta(t[i])
        == initial + count_active(t.take(i)) by {
        assert(t.take(i) =~= if i <= s.len() {
            s.take(i)
        } else {
            t.take(i)
        });
        if i < s.len() {
            assert(t[i] == s[i]);
        } else {
            assert(t[i] == w);
            assert(t.take(i) =~= s);
        }
    }
}

} // verus!

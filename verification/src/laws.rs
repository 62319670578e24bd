//! The timeline's guaranteed properties, stated and proved once and for all:
//! offset stability under mutation, strict phase progression, idempotence of
//! `apply_weeks`, the exact rejection conditions, and truncation being a
//! no-op on the future.

use vstd::prelude::*;

use crate::calendar::{
    append_check_result, apply_weeks_timeline, pattern_flags, rule_of, truncate_keep_len,
    extend_timeline, lemma_extend_timeline_props,
};
use crate::week_status::{
    AbsWeek, AppendWeekErrorKind, LogicalDelta, RuleId, WeekStatus, count_active,
    lemma_count_active_take_succ, status_delta, status_rule, status_skipped, wf_timeline,
};

verus! {

/// The number of active entries in a prefix does not change across a run of
/// skipped entries.
proof fn lemma_count_active_constant_over_skips(s: Seq<WeekStatus>, a: int, b: int)
    requires
        0 <= a <= b <= s.len(),
        forall|k: int| a <= k < b ==> status_skipped(#[trigger] s[k]),
    ensures
        count_active(s.take(b)) == count_active(s.take(a)),
    decreases b - a,
{
    if a < b {
        lemma_count_active_take_succ(s, b - 1);
        lemma_count_active_constant_over_skips(s, a, b - 1);
    }
}

/// Law: timeline offsets address absolute weeks stably. After a successful
/// `apply_weeks`, every previously recorded entry still sits at its old
/// offset (so `timeline[i]` still describes the absolute week `base + i`),
/// and the new entries land at the offsets `target - base + j` with exactly
/// the skip status and rule the pattern submitted for them.
pub proof fn lemma_apply_weeks_offsets(
    s: Seq<WeekStatus>,
    base: AbsWeek,
    initial: LogicalDelta,
    target: AbsWeek,
    p: Seq<Option<RuleId>>,
)
    requires
        initial + s.len() + p.len() <= usize::MAX,
        append_check_result(s, base, target, pattern_flags(p)) is Ok,
    ensures
        ({
            let t = apply_weeks_timeline(s, base, initial, target, p);
            &&& t.len() == if target - base + p.len() <= s.len() {
                s.len() as int
            } else {
                target - base + p.len()
            }
            &&& forall|i: int| 0 <= i < s.len() ==> t[i] == s[i]
            &&& forall|i: int|
                s.len() <= i < t.len() ==> status_skipped(#[trigger] t[i]) == (p[i - (target
                    - base)] is None)
            &&& forall|i: int|
                s.len() <= i < t.len() && p[i - (target - base)] is Some ==> status_rule(
                    #[trigger] t[i],
                ) == rule_of(p[i - (target - base)])
        }),
{
    let idx = target - base;
    let t = apply_weeks_timeline(s, base, initial, target, p);
    if p.len() + idx <= s.len() {
    } else {
        let suffix = p.subrange(s.len() - idx, p.len() as int);
        lemma_extend_timeline_props(s, initial, suffix);
        assert forall|i: int| s.len() <= i < t.len() implies status_skipped(#[trigger] t[i]) == (
        p[i - idx] is None) && (p[i - idx] is Some ==> status_rule(t[i]) == rule_of(
            p[i - idx],
        )) by {
            let j = i - s.len();
            assert(t[s.len() + j] == extend_timeline(s, initial, suffix)[s.len() + j]);
            assert(suffix[j] == p[s.len() - idx + j]);
            assert(s.len() - idx + j == i - idx);
        }
    }
}

/// Law: phase consistency makes consecutive active entries carry strictly
/// consecutive phases. If the entries at `i < j` are both active and every
/// entry strictly between them is skipped, the later phase is exactly one
/// past the earlier one — interleaved skips neither advance nor reset it.
pub proof fn lemma_phase_progression(s: Seq<WeekStatus>, initial: LogicalDelta, i: int, j: int)
    requires
        wf_timeline(s, initial),
        0 <= i < j < s.len(),
        !status_skipped(s[i]),
        !status_skipped(s[j]),
        forall|k: int| i < k < j ==> status_skipped(#[trigger] s[k]),
    ensures
        status_delta(s[j]) == status_delta(s[i]) + 1,
{
    lemma_count_active_take_succ(s, i);
    lemma_count_active_constant_over_skips(s, i + 1, j);
}

/// Law: `apply_weeks` is idempotent. Once a pattern has been applied
/// successfully at `target`, applying the identical pattern at the same
/// target succeeds again and leaves the timeline exactly as it was — no
/// duplication and no error on the retry.
pub proof fn lemma_apply_weeks_idempotent(
    s: Seq<WeekStatus>,
    base: AbsWeek,
    initial: LogicalDelta,
    target: AbsWeek,
    p: Seq<Option<RuleId>>,
)
    requires
        initial + s.len() + p.len() <= usize::MAX,
        append_check_result(s, base, target, pattern_flags(p)) is Ok,
    ensures
        ({
            let t = apply_weeks_timeline(s, base, initial, target, p);
            &&& append_check_result(t, base, target, pattern_flags(p)) is Ok
            &&& apply_weeks_timeline(t, base, initial, target, p) == t
        }),
{
    let idx = target - base;
    let t = apply_weeks_timeline(s, base, initial, target, p);
    let flags = pattern_flags(p);
    lemma_apply_weeks_offsets(s, base, initial, target, p);
    assert forall|k: int|
        0 <= k < flags.len() && idx + k < t.len() implies status_skipped(#[trigger] t[idx + k])
        == flags[k] by {
        if idx + k < s.len() {
            assert(t[idx + k] == s[idx + k]);
            assert(!(status_skipped(s[idx + k]) != flags[k]));
        } else {
            assert(status_skipped(t[idx + k]) == (p[idx + k - idx] is None));
        }
    }
    assert(append_check_result(t, base, target, flags) is Ok);
    assert(p.len() + idx <= t.len());
}

/// Law: a start week past the current end of the timeline is always refused
/// as non-consecutive, whatever the submitted pattern holds.
pub proof fn lemma_gap_rejected(s: Seq<WeekStatus>, base: AbsWeek, target: AbsWeek, flags: Seq<
    bool,
>)
    requires
        base + s.len() < target,
    ensures
        append_check_result(s, base, target, flags) == Err::<(), AppendWeekErrorKind>(
            AppendWeekErrorKind::NotConsecutiveShifts,
        ),
{
}

/// Law: a pattern that disagrees with any already-recorded entry's
/// skipped/active status is refused as an attempted overwrite, regardless of
/// what surrounds the disagreeing week.
pub proof fn lemma_overwrite_rejected(
    s: Seq<WeekStatus>,
    base: AbsWeek,
    target: AbsWeek,
    flags: Seq<bool>,
    k: int,
)
    requires
        base <= target <= base + s.len(),
        0 <= k < flags.len(),
        target - base + k < s.len(),
        status_skipped(s[target - base + k]) != flags[k],
    ensures
        append_check_result(s, base, target, flags) == Err::<(), AppendWeekErrorKind>(
            AppendWeekErrorKind::AttemptedToOverwrite,
        ),
{
}

/// Law: truncating at or past the current end of the timeline changes
/// nothing.
pub proof fn lemma_truncate_future_noop(s: Seq<WeekStatus>, base: AbsWeek, target: AbsWeek)
    requires
        base + s.len() <= target,
    ensures
        s.take(truncate_keep_len(s.len() as int, base, target)) == s,
{
    assert(s.take(s.len() as int) =~= s);
}

} // verus!

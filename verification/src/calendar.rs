//! The shift calendar manager: an append-only, gap-free timeline of weekly
//! statuses anchored at a base absolute week.
//!
//! `timeline[i]` always describes the absolute week `base_abs_week + i`; the
//! timeline has no holes, and the only mutations are appending at the end and
//! truncating from a given week onward.

use vstd::prelude::*;

use crate::week_status::{
    AbsWeek, AppendWeekErrorKind, LogicalDelta, RuleId, WeekStatus, count_active,
    lemma_count_active_le_len, lemma_last_active_delta_wf, lemma_wf_push, last_active_delta,
    next_delta, status_delta, status_rule, status_skipped, wf_timeline,
};

verus! {

/// The aggregate owning one planning context's timeline.
///
/// `base_abs_week` is the absolute week that timeline offset 0 represents
/// (the anchoring is `offset = abs_week - base_abs_week` throughout), and
/// `initial_delta` is the rotation phase handed to the first active entry
/// ever appended. All fields are plain data so the whole aggregate can be
/// round-tripped through storage by the surrounding application.
#[derive(Debug, Clone, PartialEq, Eq)]
pub struct ShiftCalendarManager {
    pub base_abs_week: AbsWeek,
    pub initial_delta: LogicalDelta,
    pub timeline: Vec<WeekStatus>,
}

/// The outcome `append_check` owes for a timeline `s` based at `base`, a
/// requested start week `target` and the skip flags of the candidate pattern:
/// underflow when the start precedes the base; a gap error when the start
/// lies past the current end; an overwrite error when some already-recorded
/// entry disagrees with the corresponding flag; success otherwise.
pub open spec fn append_check_result(
    s: Seq<WeekStatus>,
    base: AbsWeek,
    target: AbsWeek,
    flags: Seq<bool>,
) -> Result<(), AppendWeekErrorKind> {
    if target < base {
        Err(AppendWeekErrorKind::UnderFlow)
    } else if base + s.len() < target {
        Err(AppendWeekErrorKind::NotConsecutiveShifts)
    } else if exists|k: int|
        0 <= k < flags.len() && target - base + k < s.len() && status_skipped(
            #[trigger] s[target - base + k],
        ) != flags[k] {
        Err(AppendWeekErrorKind::AttemptedToOverwrite)
    } else {
        Ok(())
    }
}

/// The entry `append_week` pushes: a skip, or an active entry carrying the
/// successor phase of the timeline's most recent active entry.
pub open spec fn appended_status(
    s: Seq<WeekStatus>,
    initial: LogicalDelta,
    is_skipped: bool,
    rule_id: RuleId,
) -> WeekStatus {
    if is_skipped {
        WeekStatus::Skipped
    } else {
        WeekStatus::Active { logical_delta: next_delta(s, initial) as usize, rule_id }
    }
}

/// The rule identifier a pattern entry binds; skipped entries bind none and
/// default to zero (the stored skip carries no rule either way).
pub open spec fn rule_of(x: Option<RuleId>) -> RuleId {
    match x {
        Some(r) => r,
        None => 0,
    }
}

/// The skip flags a pattern of optional rules induces: `None` means skipped.
pub open spec fn pattern_flags(p: Seq<Option<RuleId>>) -> Seq<bool> {
    p.map(|i: int, x: Option<RuleId>| x is None)
}

/// The timeline that results from appending every entry of `p` in order,
/// each through the `append_week` semantics.
pub open spec fn extend_timeline(
    s: Seq<WeekStatus>,
    initial: LogicalDelta,
    p: Seq<Option<RuleId>>,
) -> Seq<WeekStatus>
    decreases p.len(),
{
    if p.len() == 0 {
        s
    } else {
        extend_timeline(
            s.push(appended_status(s, initial, p[0] is None, rule_of(p[0]))),
            initial,
            p.drop_first(),
        )
    }
}

/// The timeline `apply_weeks` leaves behind: unchanged when the check fails
/// or the pattern only re-describes recorded weeks, otherwise extended by the
/// pattern's suffix that lies beyond the current end.
pub open spec fn apply_weeks_timeline(
    s: Seq<WeekStatus>,
    base: AbsWeek,
    initial: LogicalDelta,
    target: AbsWeek,
    p: Seq<Option<RuleId>>,
) -> Seq<WeekStatus> {
    if append_check_result(s, base, target, pattern_flags(p)) is Ok {
        let idx = target - base;
        if p.len() + idx <= s.len() {
            s
        } else {
            extend_timeline(s, initial, p.subrange(s.len() - idx, p.len() as int))
        }
    } else {
        s
    }
}

/// Extending a timeline entry by entry: the recorded prefix is untouched, each
/// new entry lands right after it with the submitted skip/rule data, and phase
/// consistency is preserved.
pub proof fn lemma_extend_timeline_props(
    s: Seq<WeekStatus>,
    initial: LogicalDelta,
    q: Seq<Option<RuleId>>,
)
    requires
        initial + s.len() + q.len() <= usize::MAX,
    ensures
        extend_timeline(s, initial, q).len() == s.len() + q.len(),
        forall|i: int| 0 <= i < s.len() ==> extend_timeline(s, initial, q)[i] == s[i],
        forall|j: int|
            0 <= j < q.len() ==> status_skipped(
                #[trigger] extend_timeline(s, initial, q)[s.len() + j],
            ) == (q[j] is None),
        forall|j: int|
            0 <= j < q.len() && q[j] is Some ==> status_rule(
                #[trigger] extend_timeline(s, initial, q)[s.len() + j],
            ) == rule_of(q[j]),
        wf_timeline(s, initial) ==> wf_timeline(extend_timeline(s, initial, q), initial),
    decreases q.len(),
{
    if q.len() > 0 {
        let w = appended_status(s, initial, q[0] is None, rule_of(q[0]));
        let s1 = s.push(w);
        if wf_timeline(s, initial) {
            lemma_last_active_delta_wf(s, initial);
            lemma_count_active_le_len(s);
            lemma_wf_push(s, initial, w);
        }
        lemma_extend_timeline_props(s1, initial, q.drop_first());
        let e = extend_timeline(s, initial, q);
        assert(e == extend_timeline(s1, initial, q.drop_first()));
        assert forall|i: int| 0 <= i < s.len() implies e[i] == s[i] by {
            assert(extend_timeline(s1, initial, q.drop_first())[i] == s1[i]);
            assert(s1[i] == s[i]);
        }
        assert forall|j: int| 0 <= j < q.len() implies status_skipped(#[trigger] e[s.len() + j])
            == (q[j] is None) && (q[j] is Some ==> status_rule(e[s.len() + j]) == rule_of(
            q[j],
        )) by {
            if j == 0 {
                assert(e[s1.len() - 1] == s1[s1.len() - 1]);
                assert(s1[s.len() as int] == w);
            } else {
                assert(e[s1.len() + (j - 1)] == e[s.len() + j]);
                assert(q.drop_first()[j - 1] == q[j]);
            }
        }
    }
}

impl ShiftCalendarManager {
    /// Phase consistency of the stored timeline (see [`wf_timeline`]).
    pub open spec fn wf(self) -> bool {
        wf_timeline(self.timeline@, self.initial_delta)
    }

    /// Creates an empty timeline anchored at `base_abs_week`, whose first
    /// active entry will receive phase `initial_delta`.
    pub fn new(base_abs_week: AbsWeek, initial_delta: LogicalDelta) -> (m: Self)
        ensures
            m.base_abs_week == base_abs_week,
            m.initial_delta == initial_delta,
            m.timeline@.len() == 0,
            m.wf(),
    {
        Self { base_abs_week, initial_delta, timeline: Vec::new() }
    }

    /// Resolves an absolute week to its timeline offset; weeks before the
    /// base have no representable offset.
    pub fn abs_to_index(&self, abs_week: AbsWeek) -> (r: Result<usize, AppendWeekErrorKind>)
        ensures
            abs_week < self.base_abs_week ==> r == Err::<usize, AppendWeekErrorKind>(
                AppendWeekErrorKind::UnderFlow,
            ),
            abs_week >= self.base_abs_week ==> r == Ok::<usize, AppendWeekErrorKind>(
                (abs_week - self.base_abs_week) as usize,
            ),
    {
        if abs_week < self.base_abs_week {
            Err(AppendWeekErrorKind::UnderFlow)
        } else {
            Ok(abs_week - self.base_abs_week)
        }
    }

    /// The absolute week a timeline offset addresses: the inverse of
    /// `abs_to_index` wherever that succeeds.
    pub fn to_abs_week(&self, index: usize) -> (r: AbsWeek)
        requires
            self.base_abs_week + index <= usize::MAX,
        ensures
            r == self.base_abs_week + index,
    {
        self.base_abs_week + index
    }

    /// Checks whether a pattern of skip flags starting at `target_abs_week`
    /// could be merged into the timeline: the start must not precede the base
    /// week, must not leave a gap after the current end, and wherever the
    /// pattern overlaps already-recorded weeks, each recorded entry's
    /// skipped/active status must equal the submitted flag. Entries beyond
    /// the current end are new data and never conflict, so resubmitting an
    /// identical pattern succeeds.
    pub fn append_check(&self, target_abs_week: AbsWeek, skip_flags: &[bool]) -> (r: Result<
        (),
        AppendWeekErrorKind,
    >)
        ensures
            r == append_check_result(
                self.timeline@,
                self.base_abs_week,
                target_abs_week,
                skip_flags@,
            ),
    {
        if target_abs_week < self.base_abs_week {
            return Err(AppendWeekErrorKind::UnderFlow);
        }
        let index = target_abs_week - self.base_abs_week;
        if self.timeline.len() < index {
            return Err(AppendWeekErrorKind::NotConsecutiveShifts);
        }
        let n = self.timeline.len();
        let overlap = if skip_flags.len() < n - index {
            skip_flags.len()
        } else {
            n - index
        };
        let mut k: usize = 0;
        while k < overlap
            invariant
                0 <= k <= overlap,
                index == target_abs_week - self.base_abs_week,
                n == self.timeline@.len(),
                index <= n,
                overlap <= skip_flags@.len(),
                index + overlap <= n,
                skip_flags@.len() <= overlap || index + overlap == n,
                forall|j: int|
                    0 <= j < k ==> status_skipped(#[trigger] self.timeline@[index + j])
                        == skip_flags@[j],
            decreases overlap - k,
        {
            if self.timeline[index + k].is_skipped() != skip_flags[k] {
                assert(status_skipped(self.timeline@[index + k]) != skip_flags@[k as int]);
                return Err(AppendWeekErrorKind::AttemptedToOverwrite);
            }
            k += 1;
        }
        assert forall|j: int|
            0 <= j < skip_flags@.len() && index + j < self.timeline@.len() implies status_skipped(
            #[trigger] self.timeline@[index + j],
        ) == skip_flags@[j] by {
            assert(j < overlap);
        }
        Ok(())
    }

    /// The phase of the most recent active entry, found by a backward scan;
    /// `None` when the timeline holds no active entry.
    fn find_last_active_delta(&self) -> (r: Option<LogicalDelta>)
        ensures
            r == last_active_delta(self.timeline@),
    {
        let mut i: usize = self.timeline.len();
        proof {
            assert(self.timeline@.take(i as int) =~= self.timeline@);
        }
        while i > 0
            invariant
                i <= self.timeline@.len(),
                last_active_delta(self.timeline@) == last_active_delta(
                    self.timeline@.take(i as int),
                ),
            decreases i,
        {
            i -= 1;
            let w = self.timeline[i];
            proof {
                let t = self.timeline@.take(i + 1);
                assert(t.drop_last() =~= self.timeline@.take(i as int));
                assert(t.last() == self.timeline@[i as int]);
            }
            match w {
                WeekStatus::Active { logical_delta, rule_id: _ } => {
                    return Some(logical_delta);
                },
                WeekStatus::Skipped => {},
            }
        }
        None
    }

    /// Appends exactly one entry at the timeline's end: a skip, or an active
    /// entry for `rule_id` whose phase continues the most recent active
    /// entry's phase (starting from `initial_delta` when none exists). No
    /// validation happens here; callers are expected to run `append_check`
    /// first or to use `apply_weeks`.
    pub fn append_week(&mut self, is_skipped: bool, rule_id: RuleId)
        requires
            next_delta(old(self).timeline@, old(self).initial_delta) <= usize::MAX,
        ensures
            final(self).base_abs_week == old(self).base_abs_week,
            final(self).initial_delta == old(self).initial_delta,
            final(self).timeline@ == old(self).timeline@.push(
                appended_status(
                    old(self).timeline@,
                    old(self).initial_delta,
                    is_skipped,
                    rule_id,
                ),
            ),
            old(self).wf() ==> final(self).wf(),
    {
        let slot = if is_skipped {
            WeekStatus::Skipped
        } else {
            let next = match self.find_last_active_delta() {
                Some(d) => d + 1,
                None => self.initial_delta,
            };
            WeekStatus::Active { logical_delta: next, rule_id }
        };
        proof {
            if old(self).wf() {
                lemma_last_active_delta_wf(old(self).timeline@, old(self).initial_delta);
                lemma_wf_push(
                    old(self).timeline@,
                    old(self).initial_delta,
                    appended_status(
                        old(self).timeline@,
                        old(self).initial_delta,
                        is_skipped,
                        rule_id,
                    ),
                );
            }
        }
        self.timeline.push(slot);
    }

    /// Checks the pattern with `append_check` and, on success, appends only
    /// the suffix of `pattern` that lies beyond the current timeline end;
    /// weeks the pattern re-describes are left untouched. `Some(rule)` means
    /// an active week bound to that rule, `None` a skipped week. This is the
    /// idempotent, safe-to-retry entry point.
    pub fn apply_weeks(&mut self, target_abs_week: AbsWeek, pattern: &[Option<RuleId>]) -> (r:
        Result<(), AppendWeekErrorKind>)
        requires
            old(self).wf(),
            old(self).initial_delta + old(self).timeline@.len() + pattern@.len() <= usize::MAX,
        ensures
            r == append_check_result(
                old(self).timeline@,
                old(self).base_abs_week,
                target_abs_week,
                pattern_flags(pattern@),
            ),
            final(self).base_abs_week == old(self).base_abs_week,
            final(self).initial_delta == old(self).initial_delta,
            final(self).timeline@ == apply_weeks_timeline(
                old(self).timeline@,
                old(self).base_abs_week,
                old(self).initial_delta,
                target_abs_week,
                pattern@,
            ),
            final(self).wf(),
            r is Err ==> final(self).timeline@ == old(self).timeline@,
    {
        let mut flags: Vec<bool> = Vec::new();
        let mut i: usize = 0;
        while i < pattern.len()
            invariant
                i <= pattern@.len(),
                flags@.len() == i,
                forall|j: int| 0 <= j < i ==> flags@[j] == (pattern@[j] is None),
            decreases pattern@.len() - i,
        {
            flags.push(pattern[i].is_none());
            i += 1;
        }
        proof {
            assert(flags@ =~= pattern_flags(pattern@));
        }
        let check = self.append_check(target_abs_week, flags.as_slice());
        if let Err(e) = check {
            return Err(e);
        }
        let index = target_abs_week - self.base_abs_week;
        let append_start = self.timeline.len() - index;
        if pattern.len() <= append_start {
            return Ok(());
        }
        let ghost suffix = pattern@.subrange(append_start as int, pattern@.len() as int);
        let mut i: usize = append_start;
        while i < pattern.len()
            invariant
                append_start <= i <= pattern@.len(),
                self.base_abs_week == old(self).base_abs_week,
                self.initial_delta == old(self).initial_delta,
                suffix == pattern@.subrange(append_start as int, pattern@.len() as int),
                old(self).initial_delta + old(self).timeline@.len() + pattern@.len()
                    <= usize::MAX,
                self.timeline@ == extend_timeline(
                    old(self).timeline@,
                    old(self).initial_delta,
                    suffix.take(i - append_start),
                ),
                old(self).wf(),
            decreases pattern@.len() - i,
        {
            proof {
                let done = suffix.take(i - append_start);
                lemma_extend_timeline_props(old(self).timeline@, old(self).initial_delta, done);
                lemma_last_active_delta_wf(self.timeline@, self.initial_delta);
                lemma_count_active_le_len(self.timeline@);
            }
            let entry = pattern[i];
            match entry {
                Some(rule) => self.append_week(false, rule),
                None => self.append_week(true, 0),
            };
            proof {
                let done = suffix.take(i - append_start);
                let done1 = suffix.take(i + 1 - append_start);
                assert(done1.drop_last() =~= done);
                assert(done1.last() == pattern@[i as int]);
                lemma_extend_take_one_more(
                    old(self).timeline@,
                    old(self).initial_delta,
                    suffix,
                    i - append_start,
                );
            }
            i += 1;
        }
        proof {
            assert(suffix.take(suffix.len() as int) =~= suffix);
            lemma_extend_timeline_props(old(self).timeline@, old(self).initial_delta, suffix);
        }
        Ok(())
    }

    /// Rebuilds the manager with a new initial phase: every entry keeps its
    /// skipped/active status and its rule, and the active entries are
    /// renumbered consecutively from `init_delta`.
    pub fn change_delta(&self, init_delta: LogicalDelta) -> (m: Self)
        requires
            init_delta + self.timeline@.len() <= usize::MAX,
        ensures
            m.base_abs_week == self.base_abs_week,
            m.initial_delta == init_delta,
            m.timeline@.len() == self.timeline@.len(),
            forall|i: int|
                0 <= i < self.timeline@.len() ==> status_skipped(#[trigger] m.timeline@[i])
                    == status_skipped(self.timeline@[i]),
            forall|i: int|
                0 <= i < self.timeline@.len() && !status_skipped(self.timeline@[i])
                    ==> status_rule(#[trigger] m.timeline@[i]) == status_rule(self.timeline@[i]),
            m.wf(),
    {
        let mut timeline: Vec<WeekStatus> = Vec::new();
        let mut counter: usize = init_delta;
        let mut i: usize = 0;
        while i < self.timeline.len()
            invariant
                i <= self.timeline@.len(),
                init_delta + self.timeline@.len() <= usize::MAX,
                timeline@.len() == i,
                counter == init_delta + count_active(timeline@),
                count_active(timeline@) == count_active(self.timeline@.take(i as int)),
                wf_timeline(timeline@, init_delta),
                forall|k: int|
                    0 <= k < i ==> status_skipped(#[trigger] timeline@[k]) == status_skipped(
                        self.timeline@[k],
                    ),
                forall|k: int|
                    0 <= k < i && !status_skipped(self.timeline@[k]) ==> status_rule(
                        #[trigger] timeline@[k],
                    ) == status_rule(self.timeline@[k]),
            decreases self.timeline@.len() - i,
        {
            let w = self.timeline[i];
            proof {
                lemma_count_active_le_len(timeline@);
                assert(self.timeline@.take(i + 1).drop_last() =~= self.timeline@.take(i as int));
                assert(self.timeline@.take(i + 1).last() == self.timeline@[i as int]);
            }
            let ghost pre = timeline@;
            match w {
                WeekStatus::Active { logical_delta: _, rule_id } => {
                    let entry = WeekStatus::Active { logical_delta: counter, rule_id };
                    proof {
                        lemma_wf_push(pre, init_delta, entry);
                    }
                    timeline.push(entry);
                    proof {
                        assert(timeline@.drop_last() =~= pre);
                        assert(timeline@.last() == entry);
                    }
                    counter += 1;
                },
                WeekStatus::Skipped => {
                    proof {
                        lemma_wf_push(pre, init_delta, WeekStatus::Skipped);
                    }
                    timeline.push(WeekStatus::Skipped);
                    proof {
                        assert(timeline@.drop_last() =~= pre);
                        assert(timeline@.last() == WeekStatus::Skipped);
                    }
                },
            }
            i += 1;
        }
        Self { base_abs_week: self.base_abs_week, initial_delta: init_delta, timeline }
    }

    /// Discards every entry from `target_abs_week` onward. A target before
    /// the base week clears the whole timeline; a target at or past the
    /// current end changes nothing. This never fails.
    pub fn truncate_from(&mut self, target_abs_week: AbsWeek)
        ensures
            final(self).base_abs_week == old(self).base_abs_week,
            final(self).initial_delta == old(self).initial_delta,
            final(self).timeline@ == old(self).timeline@.take(
                truncate_keep_len(
                    old(self).timeline@.len() as int,
                    old(self).base_abs_week,
                    target_abs_week,
                ),
            ),
            old(self).wf() ==> final(self).wf(),
    {
        proof {
            if old(self).wf() {
                lemma_wf_take(
                    old(self).timeline@,
                    old(self).initial_delta,
                    truncate_keep_len(
                        old(self).timeline@.len() as int,
                        old(self).base_abs_week,
                        target_abs_week,
                    ),
                );
            }
        }
        if target_abs_week < self.base_abs_week {
            self.timeline.clear();
            proof {
                assert(old(self).timeline@.take(0) =~= Seq::<WeekStatus>::empty());
            }
            return;
        }
        let keep_len = target_abs_week - self.base_abs_week;
        if keep_len < self.timeline.len() {
            self.timeline.truncate(keep_len);
            proof {
                assert(old(self).timeline@.subrange(0, keep_len as int) =~= old(
                    self,
                ).timeline@.take(keep_len as int));
            }
        } else {
            proof {
                assert(old(self).timeline@.take(old(self).timeline@.len() as int) =~= old(
                    self,
                ).timeline@);
            }
        }
    }
}

/// How many leading entries a truncation at `target` keeps of a timeline of
/// length `len` based at `base`: none before the base, everything at or past
/// the end, and `target - base` in between.
pub open spec fn truncate_keep_len(len: int, base: AbsWeek, target: AbsWeek) -> int {
    if target < base {
        0
    } else if target - base < len {
        target - base
    } else {
        len
    }
}

/// Phase consistency is closed under taking a prefix.
pub proof fn lemma_wf_take(s: Seq<WeekStatus>, initial: LogicalDelta, k: int)
    requires
        wf_timeline(s, initial),
        0 <= k <= s.len(),
    ensures
        wf_timeline(s.take(k), initial),
{
    let t = s.take(k);
    assert forall|i: int| 0 <= i < t.len() && !status_skipped(t[i]) implies status_delta(t[i])
        == initial + count_active(t.take(i)) by {
        assert(t[i] == s[i]);
        assert(t.take(i) =~= s.take(i));
    }
}

/// Extending by one more pattern entry pushes exactly the entry that
/// `append_week` would append to the already-extended timeline.
pub proof fn lemma_extend_take_one_more(
    s: Seq<WeekStatus>,
    initial: LogicalDelta,
    q: Seq<Option<RuleId>>,
    k: int,
)
    requires
        0 <= k < q.len(),
    ensures
        extend_timeline(s, initial, q.take(k + 1)) == extend_timeline(s, initial, q.take(k)).push(
            appended_status(
                extend_timeline(s, initial, q.take(k)),
                initial,
                q[k] is None,
                rule_of(q[k]),
            ),
        ),
    decreases k,
{
    if k == 0 {
        let w = appended_status(s, initial, q[0] is None, rule_of(q[0]));
        assert(q.take(1)[0] == q[0]);
        assert(q.take(1).drop_first().len() == 0);
        assert(extend_timeline(s, initial, q.take(1)) == extend_timeline(
            s.push(appended_status(s, initial, q.take(1)[0] is None, rule_of(q.take(1)[0]))),
            initial,
            q.take(1).drop_first(),
        ));
        assert(extend_timeline(s, initial, q.take(1)) == s.push(w));
        assert(q.take(0).len() == 0);
        assert(extend_timeline(s, initial, q.take(0)) == s);
    } else {
        let s1 = s.push(appended_status(s, initial, q[0] is None, rule_of(q[0])));
        let q1 = q.drop_first();
        assert(q.take(k + 1)[0] == q[0]);
        assert(q.take(k + 1).drop_first() =~= q1.take(k));
        assert(q.take(k)[0] == q[0]);
        assert(q.take(k).drop_first() =~= q1.take(k - 1));
        assert(extend_timeline(s, initial, q.take(k + 1)) == extend_timeline(
            s1,
            initial,
            q1.take(k),
        ));
        assert(extend_timeline(s, initial, q.take(k)) == extend_timeline(
            s1,
            initial,
            q1.take(k - 1),
        ));
        lemma_extend_take_one_more(s1, initial, q1, k - 1);
        assert(q1.take(k - 1 + 1) =~= q1.take(k));
        assert(q1[k - 1] == q[k]);
    }
}

} // verus!

//! Derivation of concrete shifts from a timeline slice: each active week is
//! resolved through a [`WeekResolver`] using the rule its entry references,
//! each skipped week and each dangling rule reference yields `None`.
//!
//! Derivation is read-only with respect to the timeline and has no error
//! path: out-of-range requests clamp to the recorded weeks and a missing
//! rule degrades to `None` for that week only, so a single inconsistency
//! never blanks a whole range.

use std::collections::HashMap;
use vstd::prelude::*;

use crate::calendar::ShiftCalendarManager;
use crate::rules::{ResolvedWeek, RuleDefinition, StaffRoster, WeekResolver};
use crate::week_status::{AbsWeek, RuleId, WeekStatus};

verus! {

broadcast use vstd::std_specs::hash::group_hash_axioms;

/// What derivation owes for one timeline entry: `None` for a skipped week or
/// an unknown rule, and for an active week with a known rule an output the
/// resolver's relation admits for that rule and phase.
pub open spec fn derived_entry<R: WeekResolver>(
    resolver: R,
    rule_map: Map<RuleId, RuleDefinition>,
    roster: StaffRoster,
    w: WeekStatus,
    out: Option<ResolvedWeek>,
) -> bool {
    match w {
        WeekStatus::Skipped => out is None,
        WeekStatus::Active { logical_delta, rule_id } => {
            if rule_map.contains_key(rule_id) {
                &&& out is Some
                &&& resolver.resolves(&rule_map[rule_id], &roster, logical_delta, &out.unwrap())
            } else {
                out is None
            }
        },
    }
}

/// Resolves the shifts for a slice of the timeline, one output per entry and
/// in week order, delegating each active entry with a known rule to the
/// resolver and emitting `None` for everything else.
pub fn calculate_partial_shift<R: WeekResolver>(
    timeline_slice: &[WeekStatus],
    rule_map: &HashMap<RuleId, RuleDefinition>,
    roster: &StaffRoster,
    resolver: &R,
) -> (r: Vec<Option<ResolvedWeek>>)
    ensures
        r@.len() == timeline_slice@.len(),
        forall|j: int|
            0 <= j < r@.len() ==> derived_entry(
                *resolver,
                rule_map@,
                *roster,
                timeline_slice@[j],
                #[trigger] r@[j],
            ),
{
    let mut out: Vec<Option<ResolvedWeek>> = Vec::new();
    let mut i: usize = 0;
    while i < timeline_slice.len()
        invariant
            i <= timeline_slice@.len(),
            out@.len() == i,
            forall|j: int|
                0 <= j < i ==> derived_entry(
                    *resolver,
                    rule_map@,
                    *roster,
                    timeline_slice@[j],
                    #[trigger] out@[j],
                ),
        decreases timeline_slice@.len() - i,
    {
        let entry = match timeline_slice[i] {
            WeekStatus::Skipped => None,
            WeekStatus::Active { logical_delta, rule_id } => match rule_map.get(&rule_id) {
                Some(rule) => Some(resolver.resolve(rule, roster, logical_delta)),
                None => None,
            },
        };
        out.push(entry);
        i += 1;
    }
    out
}

impl ShiftCalendarManager {
    /// Derives the shifts for `gen_range` weeks starting at `gen_week_abs`.
    /// A start before the base week yields an empty result, a range past the
    /// recorded end is clamped to it, and within the clamped range each week
    /// derives as [`derived_entry`] describes. The result may therefore be
    /// shorter than requested; it is never an error.
    pub fn derive_shift<R: WeekResolver>(
        &self,
        rule_map: &HashMap<RuleId, RuleDefinition>,
        roster: &StaffRoster,
        resolver: &R,
        gen_week_abs: AbsWeek,
        gen_range: usize,
    ) -> (r: Vec<Option<ResolvedWeek>>)
        ensures
            r@.len() == derived_len(
                self.timeline@.len() as int,
                self.base_abs_week,
                gen_week_abs,
                gen_range,
            ),
            forall|j: int|
                0 <= j < r@.len() ==> derived_entry(
                    *resolver,
                    rule_map@,
                    *roster,
                    self.timeline@[gen_week_abs - self.base_abs_week + j],
                    #[trigger] r@[j],
                ),
    {
        if gen_week_abs < self.base_abs_week {
            return Vec::new();
        }
        let index = gen_week_abs - self.base_abs_week;
        if index >= self.timeline.len() {
            return Vec::new();
        }
        let end = if gen_range < self.timeline.len() - index {
            index + gen_range
        } else {
            self.timeline.len()
        };
        let slice = &self.timeline.as_slice()[index..end];
        calculate_partial_shift(slice, rule_map, roster, resolver)
    }
}

/// How many weeks a derivation request yields: none when the start precedes
/// the base or lies past the recorded end, otherwise the requested range
/// clamped to the recorded weeks.
pub open spec fn derived_len(len: int, base: AbsWeek, start: AbsWeek, range: usize) -> int {
    if start < base {
        0
    } else if start - base >= len {
        0
    } else if start - base + range <= len {
        range as int
    } else {
        len - (start - base)
    }
}

} // verus!

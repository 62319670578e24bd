//! The data handed to shift derivation: weekly rule definitions (a rotation
//! of week patterns whose slots reference roster positions), the staff
//! roster, and the fully resolved output of one week.
//!
//! Resolution turns a rule definition, a roster and a rotation phase into
//! concrete staff names per weekday and time of day: the phase selects one
//! week pattern from the rotation (`phase mod cycle length`), and each slot
//! reference `(group_index, member_index)` is looked up in the roster. A
//! dangling reference is silently omitted rather than failing, so resolution
//! is total.

use vstd::prelude::*;

verus! {

/// A reference to one staff slot: the group's position in the roster and the
/// member's position inside that group.
#[derive(Clone, Copy, Debug, PartialEq, Eq, Structural)]
pub struct SlotRef {
    pub group_index: usize,
    pub member_index: usize,
}

/// The slots assigned on one weekday, split into morning and afternoon.
#[derive(Clone, Debug)]
pub struct DayPattern {
    pub morning: Vec<SlotRef>,
    pub afternoon: Vec<SlotRef>,
}

/// One week of day patterns, Monday first; a well-formed pattern holds one
/// entry per weekday.
#[derive(Clone, Debug)]
pub struct WeekPattern {
    pub days: Vec<DayPattern>,
}

/// A weekly rule definition: the rotation cycle of week patterns a rule
/// cycles through, one pattern per rotation phase.
#[derive(Clone, Debug)]
pub struct RuleDefinition {
    pub rotation: Vec<WeekPattern>,
}

/// A named staff group with its ordered member names.
#[derive(Clone, Debug)]
pub struct RosterGroup {
    pub name: String,
    pub members: Vec<String>,
}

/// The staff roster: ordered groups addressed by `SlotRef` pairs.
#[derive(Clone, Debug)]
pub struct StaffRoster {
    pub groups: Vec<RosterGroup>,
}

/// The staff assigned on one weekday of a resolved week.
#[derive(Clone, Debug)]
pub struct ResolvedDay {
    pub morning: Vec<String>,
    pub afternoon: Vec<String>,
}

/// A fully resolved week: one entry per weekday, Monday first.
#[derive(Clone, Debug)]
pub struct ResolvedWeek {
    pub days: Vec<ResolvedDay>,
}

/// The name a slot reference addresses, or `None` when the reference points
/// outside the roster.
pub open spec fn slot_name(roster: StaffRoster, slot: SlotRef) -> Option<String> {
    if slot.group_index < roster.groups@.len() && slot.member_index
        < roster.groups@[slot.group_index as int].members@.len() {
        Some(roster.groups@[slot.group_index as int].members@[slot.member_index as int])
    } else {
        None
    }
}

/// The names the given slots resolve to, in slot order, dangling references
/// omitted.
pub open spec fn resolve_side(roster: StaffRoster, slots: Seq<SlotRef>) -> Seq<String>
    decreases slots.len(),
{
    if slots.len() == 0 {
        Seq::empty()
    } else {
        resolve_side(roster, slots.drop_last()) + match slot_name(roster, slots.last()) {
            Some(name) => seq![name],
            None => Seq::empty(),
        }
    }
}

/// The slots a rule assigns on weekday `d` (0 = Monday) at rotation phase
/// `phase`: those of the rotation's selected week pattern, or none when the
/// rotation is empty or the pattern holds no entry for that weekday.
pub open spec fn slots_for_day(
    rule: RuleDefinition,
    phase: usize,
    d: int,
    afternoon: bool,
) -> Seq<SlotRef> {
    if rule.rotation@.len() == 0 {
        Seq::empty()
    } else {
        let wp = rule.rotation@[phase as int % rule.rotation@.len() as int];
        if 0 <= d < wp.days@.len() {
            if afternoon {
                wp.days@[d].afternoon@
            } else {
                wp.days@[d].morning@
            }
        } else {
            Seq::empty()
        }
    }
}

/// What it means for `out` to be the resolution of `rule` at `phase` against
/// `roster`: seven days, each holding exactly the names the selected week
/// pattern's slots resolve to.
pub open spec fn week_resolution(
    rule: RuleDefinition,
    roster: StaffRoster,
    phase: usize,
    out: ResolvedWeek,
) -> bool {
    &&& out.days@.len() == 7
    &&& forall|d: int|
        0 <= d < 7 ==> (#[trigger] out.days@[d]).morning@ == resolve_side(
            roster,
            slots_for_day(rule, phase, d, false),
        )
    &&& forall|d: int|
        0 <= d < 7 ==> (#[trigger] out.days@[d]).afternoon@ == resolve_side(
            roster,
            slots_for_day(rule, phase, d, true),
        )
}

/// The capability the timeline core resolves weeks through, so that it has
/// no compile-time coupling to any particular rotation algorithm. An
/// implementation declares, as the spec relation `resolves`, which outputs
/// it may produce, and its `resolve` promises an output in that relation.
pub trait WeekResolver {
    /// The relation between inputs and the outputs `resolve` may return.
    spec fn resolves(
        &self,
        rule: &RuleDefinition,
        roster: &StaffRoster,
        phase: usize,
        out: &ResolvedWeek,
    ) -> bool;

    /// Resolves one week; total and side-effect-free.
    fn resolve(&self, rule: &RuleDefinition, roster: &StaffRoster, phase: usize) -> (r:
        ResolvedWeek)
        ensures
            self.resolves(rule, roster, phase, &r),
    ;
}

/// The standard resolution primitive: phase-modulo rotation selection and
/// positional roster lookup, exactly the [`week_resolution`] relation.
pub struct RotationResolver;

impl WeekResolver for RotationResolver {
    open spec fn resolves(
        &self,
        rule: &RuleDefinition,
        roster: &StaffRoster,
        phase: usize,
        out: &ResolvedWeek,
    ) -> bool {
        week_resolution(*rule, *roster, phase, *out)
    }

    fn resolve(&self, rule: &RuleDefinition, roster: &StaffRoster, phase: usize) -> (r:
        ResolvedWeek) {
        resolve_week(rule, roster, phase)
    }
}

/// Collects the names the given slots resolve to, skipping dangling
/// references.
fn resolve_slots(roster: &StaffRoster, slots: &Vec<SlotRef>) -> (r: Vec<String>)
    ensures
        r@ == resolve_side(*roster, slots@),
{
    let mut out: Vec<String> = Vec::new();
    let mut i: usize = 0;
    proof {
        assert(slots@.take(0) =~= Seq::<SlotRef>::empty());
    }
    while i < slots.len()
        invariant
            i <= slots@.len(),
            out@ == resolve_side(*roster, slots@.take(i as int)),
        decreases slots@.len() - i,
    {
        let slot = slots[i];
        proof {
            assert(slots@.take(i + 1).drop_last() =~= slots@.take(i as int));
            assert(slots@.take(i + 1).last() == slots@[i as int]);
        }
        if slot.group_index < roster.groups.len() {
            let group = &roster.groups[slot.group_index];
            if slot.member_index < group.members.len() {
                out.push(group.members[slot.member_index].clone());
                proof {
                    assert(out@ =~= resolve_side(*roster, slots@.take(i + 1)));
                }
            }
        }
        proof {
            assert(out@ =~= resolve_side(*roster, slots@.take(i + 1)));
        }
        i += 1;
    }
    proof {
        assert(slots@.take(slots@.len() as int) =~= slots@);
    }
    out
}

/// Resolves one week of staff assignments: selects the rotation's week
/// pattern for `phase` and looks every slot reference up in the roster.
/// Total: an empty rotation, a short pattern or a dangling slot reference
/// degrade to empty assignment lists, never to a failure.
pub fn resolve_week(rule: &RuleDefinition, roster: &StaffRoster, phase: usize) -> (r: ResolvedWeek)
    ensures
        week_resolution(*rule, *roster, phase, r),
{
    let mut days: Vec<ResolvedDay> = Vec::new();
    let cycle = rule.rotation.len();
    let mut d: usize = 0;
    while d < 7
        invariant
            d <= 7,
            cycle == rule.rotation@.len(),
            days@.len() == d,
            forall|k: int|
                0 <= k < d ==> (#[trigger] days@[k]).morning@ == resolve_side(
                    *roster,
                    slots_for_day(*rule, phase, k, false),
                ),
            forall|k: int|
                0 <= k < d ==> (#[trigger] days@[k]).afternoon@ == resolve_side(
                    *roster,
                    slots_for_day(*rule, phase, k, true),
                ),
        decreases 7 - d,
    {
        let day = if cycle == 0 {
            ResolvedDay { morning: Vec::new(), afternoon: Vec::new() }
        } else {
            let pattern = &rule.rotation[phase % cycle];
            if d < pattern.days.len() {
                ResolvedDay {
                    morning: resolve_slots(roster, &pattern.days[d].morning),
                    afternoon: resolve_slots(roster, &pattern.days[d].afternoon),
                }
            } else {
                ResolvedDay { morning: Vec::new(), afternoon: Vec::new() }
            }
        };
        days.push(day);
        d += 1;
    }
    ResolvedWeek { days }
}

} // verus!

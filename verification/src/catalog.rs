//! The rule catalog as the surrounding application stores it: plans, staff
//! groups and members, weekly rules and their per-day slot assignments, plus
//! the verified conversions that turn a fetched catalog into the roster and
//! rule definitions shift derivation works on.

use std::collections::HashMap;
use vstd::prelude::*;

use crate::rules::{DayPattern, RosterGroup, RuleDefinition, SlotRef, StaffRoster, WeekPattern};

verus! {

broadcast use vstd::std_specs::hash::group_hash_axioms;

/// A plan: one named configuration set everything else hangs off.
#[derive(Clone, Debug, PartialEq, Eq)]
pub struct Plan {
    pub id: i64,
    pub name: String,
}

/// A staff group row of a plan.
#[derive(Clone, Debug, PartialEq, Eq)]
pub struct StaffGroup {
    pub id: i64,
    pub plan_id: i64,
    pub name: String,
    pub sort_order: i64,
}

/// A staff member row of a group.
#[derive(Clone, Debug, PartialEq, Eq)]
pub struct StaffMember {
    pub id: i64,
    pub group_id: i64,
    pub name: String,
    pub sort_order: i64,
}

/// A weekly rule row of a plan.
#[derive(Clone, Debug, PartialEq, Eq)]
pub struct WeeklyRule {
    pub id: i64,
    pub plan_id: i64,
    pub name: String,
    pub sort_order: i64,
}

/// A weekday, Monday first.
#[derive(Clone, Copy, Debug, PartialEq, Eq, Structural)]
pub enum Weekday {
    Monday,
    Tuesday,
    Wednesday,
    Thursday,
    Friday,
    Saturday,
    Sunday,
}

/// The half of a day a slot is assigned to.
#[derive(Clone, Copy, Debug, PartialEq, Eq, Structural)]
pub enum ShiftTime {
    Morning,
    Afternoon,
}

/// One slot assignment of a weekly rule: on a given weekday and half-day,
/// the member at `target_member_index` of the group with id
/// `target_group_id` is on shift.
#[derive(Clone, Copy, Debug, PartialEq, Eq, Structural)]
pub struct RuleAssignment {
    pub id: i64,
    pub weekly_rule_id: i64,
    pub weekday: Weekday,
    pub shift_time_type: ShiftTime,
    pub target_group_id: i64,
    pub target_member_index: usize,
}

/// A plan's full configuration, assembled for the caller: the plan row, its
/// groups with their members, and its rules with their assignments.
#[derive(Clone, Debug, PartialEq, Eq)]
pub struct PlanConfig {
    pub plan: Plan,
    pub groups: Vec<StaffGroupWithMembers>,
    pub rules: Vec<WeeklyRuleWithAssignments>,
}

/// A staff group row together with its member rows.
#[derive(Clone, Debug, PartialEq, Eq)]
pub struct StaffGroupWithMembers {
    pub group: StaffGroup,
    pub members: Vec<StaffMember>,
}

/// A weekly rule row together with its assignment rows.
#[derive(Clone, Debug, PartialEq, Eq)]
pub struct WeeklyRuleWithAssignments {
    pub rule: WeeklyRule,
    pub assignments: Vec<RuleAssignment>,
}

/// The weekday at position `d` of a week, Monday first (total: positions
/// outside the week fall back to Monday).
pub open spec fn weekday_from_index(d: int) -> Weekday {
    if d == 1 {
        Weekday::Tuesday
    } else if d == 2 {
        Weekday::Wednesday
    } else if d == 3 {
        Weekday::Thursday
    } else if d == 4 {
        Weekday::Friday
    } else if d == 5 {
        Weekday::Saturday
    } else if d == 6 {
        Weekday::Sunday
    } else {
        Weekday::Monday
    }
}

impl Weekday {
    /// This weekday's position in the week, Monday first.
    pub fn index(&self) -> (r: usize)
        ensures
            r < 7,
            weekday_from_index(r as int) == *self,
    {
        match self {
            Weekday::Monday => 0,
            Weekday::Tuesday => 1,
            Weekday::Wednesday => 2,
            Weekday::Thursday => 3,
            Weekday::Friday => 4,
            Weekday::Saturday => 5,
            Weekday::Sunday => 6,
        }
    }
}

/// The assignment rows that belong to the rule with id `rule_id`, in their
/// original order.
pub open spec fn assignments_for(assigns: Seq<RuleAssignment>, rule_id: i64) -> Seq<
    RuleAssignment,
>
    decreases assigns.len(),
{
    if assigns.len() == 0 {
        Seq::empty()
    } else {
        assignments_for(assigns.drop_last(), rule_id) + if assigns.last().weekly_rule_id
            == rule_id {
            seq![assigns.last()]
        } else {
            Seq::empty()
        }
    }
}

/// Attaches to each rule the assignment rows that reference it, keeping both
/// the rules' and the assignments' order.
pub fn group_assignments_by_rule(rules: &Vec<WeeklyRule>, assignments: &Vec<RuleAssignment>) -> (r:
    Vec<WeeklyRuleWithAssignments>)
    ensures
        r@.len() == rules@.len(),
        forall|i: int| 0 <= i < rules@.len() ==> (#[trigger] r@[i]).rule == rules@[i],
        forall|i: int|
            0 <= i < rules@.len() ==> (#[trigger] r@[i]).assignments@ == assignments_for(
                assignments@,
                rules@[i].id,
            ),
{
    let mut out: Vec<WeeklyRuleWithAssignments> = Vec::new();
    let mut i: usize = 0;
    while i < rules.len()
        invariant
            i <= rules@.len(),
            out@.len() == i,
            forall|k: int| 0 <= k < i ==> (#[trigger] out@[k]).rule == rules@[k],
            forall|k: int|
                0 <= k < i ==> (#[trigger] out@[k]).assignments@ == assignments_for(
                    assignments@,
                    rules@[k].id,
                ),
        decreases rules@.len() - i,
    {
        let rule = &rules[i];
        let mut related: Vec<RuleAssignment> = Vec::new();
        let mut k: usize = 0;
        while k < assignments.len()
            invariant
                k <= assignments@.len(),
                i < rules@.len(),
                *rule == rules@[i as int],
                related@ == assignments_for(assignments@.take(k as int), rules@[i as int].id),
            decreases assignments@.len() - k,
        {
            proof {
                let rid = rules@[i as int].id;
                let pre = assignments@.take(k as int);
                let cur = assignments@.take(k + 1);
                assert(cur.drop_last() =~= pre);
                assert(cur.last() == assignments@[k as int]);
                assert(assignments_for(cur, rid) == assignments_for(pre, rid) + if assignments@[k as int].weekly_rule_id
                    == rid {
                    seq![assignments@[k as int]]
                } else {
                    Seq::empty()
                });
            }
            let a = assignments[k];
            if a.weekly_rule_id == rule.id {
                related.push(a);
            }
            proof {
                assert(related@ =~= assignments_for(
                    assignments@.take(k + 1),
                    rules@[i as int].id,
                ));
            }
            k += 1;
        }
        proof {
            assert(assignments@.take(assignments@.len() as int) =~= assignments@);
        }
        out.push(
            WeeklyRuleWithAssignments {
                rule: WeeklyRule {
                    id: rule.id,
                    plan_id: rule.plan_id,
                    name: rule.name.clone(),
                    sort_order: rule.sort_order,
                },
                assignments: related,
            },
        );
        i += 1;
    }
    out
}

/// The group ids of a configuration's groups, in order.
pub open spec fn config_group_ids(groups: Seq<StaffGroupWithMembers>) -> Seq<i64> {
    groups.map(|i: int, g: StaffGroupWithMembers| g.group.id)
}

/// The member names of a group's member rows, in order.
pub open spec fn member_names(members: Seq<StaffMember>) -> Seq<String> {
    members.map(|i: int, m: StaffMember| m.name)
}

/// Builds the roster shift derivation works on, plus the lookup from a
/// group's id to its roster position: one roster group per configured group,
/// in order, with the members' names in order. When two groups share an id,
/// the lookup maps it to the later position.
pub fn plan_config_to_roster(config: &PlanConfig) -> (r: (StaffRoster, HashMap<i64, usize>))
    ensures
        r.0.groups@.len() == config.groups@.len(),
        forall|i: int|
            0 <= i < config.groups@.len() ==> (#[trigger] r.0.groups@[i]).name == config.groups@[i].group.name,
        forall|i: int|
            0 <= i < config.groups@.len() ==> (#[trigger] r.0.groups@[i]).members@ == member_names(
                config.groups@[i].members@,
            ),
        forall|i: int|
            0 <= i < config.groups@.len() ==> r.1@.contains_key(
                #[trigger] config_group_ids(config.groups@)[i],
            ),
        forall|key: i64|
            r.1@.contains_key(key) ==> exists|i: int|
                0 <= i < config.groups@.len() && config_group_ids(config.groups@)[i] == key,
        forall|i: int|
            0 <= i < config.groups@.len() && (forall|j: int|
                i < j < config.groups@.len() ==> config_group_ids(config.groups@)[j]
                    != config_group_ids(config.groups@)[i]) ==> r.1@[#[trigger] config_group_ids(
                config.groups@,
            )[i]] == i,
{
    let ghost ids = config_group_ids(config.groups@);
    let mut groups: Vec<RosterGroup> = Vec::new();
    let mut index_of: HashMap<i64, usize> = HashMap::new();
    let mut i: usize = 0;
    while i < config.groups.len()
        invariant
            i <= config.groups@.len(),
            groups@.len() == i,
            ids == config_group_ids(config.groups@),
            forall|k: int|
                0 <= k < i ==> (#[trigger] groups@[k]).name == config.groups@[k].group.name,
            forall|k: int|
                0 <= k < i ==> (#[trigger] groups@[k]).members@ == member_names(
                    config.groups@[k].members@,
                ),
            forall|k: int| 0 <= k < i ==> index_of@.contains_key(#[trigger] ids[k]),
            forall|key: i64|
                index_of@.contains_key(key) ==> exists|k: int| 0 <= k < i && ids[k] == key,
            forall|k: int|
                0 <= k < i && (forall|j: int| k < j < i ==> ids[j] != ids[k])
                    ==> index_of@[#[trigger] ids[k]] == k,
        decreases config.groups@.len() - i,
    {
        let entry = &config.groups[i];
        let mut members: Vec<String> = Vec::new();
        let mut k: usize = 0;
        while k < entry.members.len()
            invariant
                k <= entry.members@.len(),
                members@.len() == k,
                forall|j: int| 0 <= j < k ==> members@[j] == member_names(entry.members@)[j],
            decreases entry.members@.len() - k,
        {
            members.push(entry.members[k].name.clone());
            k += 1;
        }
        proof {
            assert(members@ =~= member_names(entry.members@));
        }
        let ghost pre = index_of@;
        index_of.insert(entry.group.id, i);
        proof {
            assert(ids[i as int] == entry.group.id);
            assert(index_of@ == pre.insert(entry.group.id, i as usize));
            assert forall|key: i64| index_of@.contains_key(key) implies exists|k: int|
                0 <= k < i + 1 && ids[k] == key by {
                if key == entry.group.id {
                    assert(ids[i as int] == key);
                } else {
                    assert(pre.contains_key(key));
                }
            }
            assert forall|k: int|
                0 <= k < i + 1 && (forall|j: int| k < j < i + 1 ==> ids[j] != ids[k]) implies
                index_of@[#[trigger] ids[k]] == k by {
                if k == i {
                    assert(index_of@[ids[k]] == i as usize);
                } else {
                    assert(ids[i as int] != ids[k]);
                    assert(index_of@[ids[k]] == pre[ids[k]]);
                }
            }
        }
        groups.push(RosterGroup { name: entry.group.name.clone(), members });
        i += 1;
    }
    (StaffRoster { groups }, index_of)
}

/// The slot reference an assignment denotes, given the lookup from group ids
/// to roster positions.
pub open spec fn slot_of(a: RuleAssignment, m: Map<i64, usize>) -> SlotRef {
    SlotRef { group_index: m[a.target_group_id], member_index: a.target_member_index }
}

/// The slots the given assignments place on `day` at `time`, in their
/// original order.
pub open spec fn assigned_slots(
    assigns: Seq<RuleAssignment>,
    m: Map<i64, usize>,
    day: Weekday,
    time: ShiftTime,
) -> Seq<SlotRef>
    decreases assigns.len(),
{
    if assigns.len() == 0 {
        Seq::empty()
    } else {
        assigned_slots(assigns.drop_last(), m, day, time) + if assigns.last().weekday == day
            && assigns.last().shift_time_type == time {
            seq![slot_of(assigns.last(), m)]
        } else {
            Seq::empty()
        }
    }
}

/// What the rule definition built from one rule's assignments holds: a
/// rotation of exactly one week pattern with seven days, each day carrying
/// precisely the slots the assignments place there.
pub open spec fn rule_def_matches(
    assigns: Seq<RuleAssignment>,
    m: Map<i64, usize>,
    def: RuleDefinition,
) -> bool {
    &&& def.rotation@.len() == 1
    &&& def.rotation@[0].days@.len() == 7
    &&& forall|d: int|
        0 <= d < 7 ==> (#[trigger] def.rotation@[0].days@[d]).morning@ == assigned_slots(
            assigns,
            m,
            weekday_from_index(d),
            ShiftTime::Morning,
        )
    &&& forall|d: int|
        0 <= d < 7 ==> (#[trigger] def.rotation@[0].days@[d]).afternoon@ == assigned_slots(
            assigns,
            m,
            weekday_from_index(d),
            ShiftTime::Afternoon,
        )
}

/// The rule ids of a configuration's rules, in order.
pub open spec fn config_rule_ids(rules: Seq<WeeklyRuleWithAssignments>) -> Seq<i64> {
    rules.map(|i: int, r: WeeklyRuleWithAssignments| r.rule.id)
}

/// Builds the lookup from rule ids to the rule definitions shift derivation
/// works on: one definition per configured rule, its seven days carrying the
/// rule's assignments as slot references through the group-id lookup. When
/// two rules share an id, the later definition wins. Every assignment must
/// reference a group the lookup knows.
pub fn plan_config_to_rule_map(config: &PlanConfig, group_index: &HashMap<i64, usize>) -> (r:
    HashMap<i64, RuleDefinition>)
    requires
        forall|i: int, j: int|
            0 <= i < config.rules@.len() && 0 <= j < config.rules@[i].assignments@.len()
                ==> group_index@.contains_key(
                (#[trigger] config.rules@[i].assignments@[j]).target_group_id,
            ),
    ensures
        forall|i: int|
            0 <= i < config.rules@.len() ==> r@.contains_key(
                #[trigger] config_rule_ids(config.rules@)[i],
            ),
        forall|key: i64|
            r@.contains_key(key) ==> exists|i: int|
                0 <= i < config.rules@.len() && config_rule_ids(config.rules@)[i] == key,
        forall|i: int|
            0 <= i < config.rules@.len() && (forall|j: int|
                i < j < config.rules@.len() ==> config_rule_ids(config.rules@)[j]
                    != config_rule_ids(config.rules@)[i]) ==> rule_def_matches(
                config.rules@[i].assignments@,
                group_index@,
                r@[#[trigger] config_rule_ids(config.rules@)[i]],
            ),
{
    let ghost ids = config_rule_ids(config.rules@);
    let mut out: HashMap<i64, RuleDefinition> = HashMap::new();
    let mut i: usize = 0;
    while i < config.rules.len()
        invariant
            i <= config.rules@.len(),
            ids == config_rule_ids(config.rules@),
            forall|a: int, b: int|
                0 <= a < config.rules@.len() && 0 <= b < config.rules@[a].assignments@.len()
                    ==> group_index@.contains_key(
                    (#[trigger] config.rules@[a].assignments@[b]).target_group_id,
                ),
            forall|k: int| 0 <= k < i ==> out@.contains_key(#[trigger] ids[k]),
            forall|key: i64|
                out@.contains_key(key) ==> exists|k: int| 0 <= k < i && ids[k] == key,
            forall|k: int|
                0 <= k < i && (forall|j: int| k < j < i ==> ids[j] != ids[k])
                    ==> rule_def_matches(
                    config.rules@[k].assignments@,
                    group_index@,
                    out@[#[trigger] ids[k]],
                ),
        decreases config.rules@.len() - i,
    {
        let entry = &config.rules[i];
        let mut days: Vec<DayPattern> = Vec::new();
        let mut d: usize = 0;
        while d < 7
            invariant
                d <= 7,
                i < config.rules@.len(),
                *entry == config.rules@[i as int],
                forall|a: int, b: int|
                    0 <= a < config.rules@.len() && 0 <= b < config.rules@[a].assignments@.len()
                        ==> group_index@.contains_key(
                        (#[trigger] config.rules@[a].assignments@[b]).target_group_id,
                    ),
                days@.len() == d,
                forall|dd: int|
                    0 <= dd < d ==> (#[trigger] days@[dd]).morning@ == assigned_slots(
                        config.rules@[i as int].assignments@,
                        group_index@,
                        weekday_from_index(dd),
                        ShiftTime::Morning,
                    ),
                forall|dd: int|
                    0 <= dd < d ==> (#[trigger] days@[dd]).afternoon@ == assigned_slots(
                        config.rules@[i as int].assignments@,
                        group_index@,
                        weekday_from_index(dd),
                        ShiftTime::Afternoon,
                    ),
            decreases 7 - d,
        {
            let mut morning: Vec<SlotRef> = Vec::new();
            let mut afternoon: Vec<SlotRef> = Vec::new();
            let mut k: usize = 0;
            while k < entry.assignments.len()
                invariant
                    k <= entry.assignments@.len(),
                    i < config.rules@.len(),
                    d < 7,
                    *entry == config.rules@[i as int],
                    forall|a: int, b: int|
                        0 <= a < config.rules@.len() && 0 <= b < config.rules@[a].assignments@.len()
                            ==> group_index@.contains_key(
                            (#[trigger] config.rules@[a].assignments@[b]).target_group_id,
                        ),
                    morning@ == assigned_slots(
                        entry.assignments@.take(k as int),
                        group_index@,
                        weekday_from_index(d as int),
                        ShiftTime::Morning,
                    ),
                    afternoon@ == assigned_slots(
                        entry.assignments@.take(k as int),
                        group_index@,
                        weekday_from_index(d as int),
                        ShiftTime::Afternoon,
                    ),
                decreases entry.assignments@.len() - k,
            {
                proof {
                    let cur = entry.assignments@.take(k + 1);
                    assert(cur.drop_last() =~= entry.assignments@.take(k as int));
                    assert(cur.last() == entry.assignments@[k as int]);
                }
                let a = entry.assignments[k];
                if a.weekday.index() == d {
                    let gi = match group_index.get(&a.target_group_id) {
                        Some(g) => *g,
                        None => {
                            proof {
                                assert(group_index@.contains_key(
                                    config.rules@[i as int].assignments@[k as int].target_group_id,
                                ));
                            }
                            vstd::pervasive::unreached()
                        },
                    };
                    let slot = SlotRef { group_index: gi, member_index: a.target_member_index };
                    match a.shift_time_type {
                        ShiftTime::Morning => morning.push(slot),
                        ShiftTime::Afternoon => afternoon.push(slot),
                    }
                }
                proof {
                    assert(morning@ =~= assigned_slots(
                        entry.assignments@.take(k + 1),
                        group_index@,
                        weekday_from_index(d as int),
                        ShiftTime::Morning,
                    ));
                    assert(afternoon@ =~= assigned_slots(
                        entry.assignments@.take(k + 1),
                        group_index@,
                        weekday_from_index(d as int),
                        ShiftTime::Afternoon,
                    ));
                }
                k += 1;
            }
            proof {
                assert(entry.assignments@.take(entry.assignments@.len() as int)
                    =~= entry.assignments@);
            }
            days.push(DayPattern { morning, afternoon });
            d += 1;
        }
        let mut rotation: Vec<WeekPattern> = Vec::new();
        rotation.push(WeekPattern { days });
        let def = RuleDefinition { rotation };
        proof {
            assert(rule_def_matches(config.rules@[i as int].assignments@, group_index@, def));
        }
        let ghost pre = out@;
        out.insert(entry.rule.id, def);
        proof {
            assert(ids[i as int] == entry.rule.id);
            assert forall|key: i64| out@.contains_key(key) implies exists|k: int|
                0 <= k < i + 1 && ids[k] == key by {
                if key == entry.rule.id {
                    assert(ids[i as int] == key);
                } else {
                    assert(pre.contains_key(key));
                }
            }
            assert forall|k: int|
                0 <= k < i + 1 && (forall|j: int| k < j < i + 1 ==> ids[j] != ids[k]) implies
                rule_def_matches(
                config.rules@[k].assignments@,
                group_index@,
                out@[#[trigger] ids[k]],
            ) by {
                if k == i {
                } else {
                    assert(ids[i as int] != ids[k]);
                    assert(out@[ids[k]] == pre[ids[k]]);
                }
            }
        }
        i += 1;
    }
    out
}

} // verus!

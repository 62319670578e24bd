//! The configuration file schema: staff groups and weekly rules as the
//! surrounding application reads and writes them, and the verified
//! conversions into the roster and rule definition the derivation core works
//! on. The application layers the actual (de)serialization around these
//! types; the library only shapes and converts the plain data.

use vstd::prelude::*;

use crate::rules::{DayPattern, RosterGroup, RuleDefinition, SlotRef, StaffRoster, WeekPattern};

verus! {

/// One staff slot of a group: the member's display name.
#[derive(Clone, Debug, PartialEq, Eq)]
pub struct JsonSlot {
    pub name: String,
}

/// A staff group with its ordered member slots.
#[derive(Clone, Debug, PartialEq, Eq)]
pub struct JsonStaffGroup {
    pub name: String,
    pub slots: Vec<JsonSlot>,
}

/// One slot assignment: which group and which member index is on shift.
#[derive(Clone, Copy, Debug, PartialEq, Eq, Structural)]
pub struct JsonAssignment {
    pub staff_group_id: u32,
    pub shift_staff_index: u32,
}

/// The assignments of one day, split into morning and afternoon.
#[derive(Clone, Debug, PartialEq, Eq)]
pub struct JsonDailySchedule {
    pub m: Vec<JsonAssignment>,
    pub a: Vec<JsonAssignment>,
}

/// A whole week of daily schedules.
#[derive(Clone, Debug, PartialEq, Eq)]
pub struct JsonWeeklySchedule {
    pub mon: JsonDailySchedule,
    pub tue: JsonDailySchedule,
    pub wed: JsonDailySchedule,
    pub thu: JsonDailySchedule,
    pub fri: JsonDailySchedule,
    pub sat: JsonDailySchedule,
    pub sun: JsonDailySchedule,
}

/// A named weekly rule template with its schedule.
#[derive(Clone, Debug, PartialEq, Eq)]
pub struct JsonRule {
    pub name: String,
    pub schedule: JsonWeeklySchedule,
}

/// The whole configuration: the staff groups and the rule templates.
#[derive(Clone, Debug, PartialEq, Eq)]
pub struct JsonConfig {
    pub staff_groups: Vec<JsonStaffGroup>,
    pub rules: Vec<JsonRule>,
}

/// The slot references a sequence of assignments denotes.
pub open spec fn json_slots(assigns: Seq<JsonAssignment>) -> Seq<SlotRef> {
    assigns.map(
        |i: int, a: JsonAssignment|
            SlotRef {
                group_index: a.staff_group_id as usize,
                member_index: a.shift_staff_index as usize,
            },
    )
}

/// The daily schedule a weekly schedule holds at position `d`, Monday first
/// (total: positions outside the week fall back to Monday).
pub open spec fn json_day(s: JsonWeeklySchedule, d: int) -> JsonDailySchedule {
    if d == 1 {
        s.tue
    } else if d == 2 {
        s.wed
    } else if d == 3 {
        s.thu
    } else if d == 4 {
        s.fri
    } else if d == 5 {
        s.sat
    } else if d == 6 {
        s.sun
    } else {
        s.mon
    }
}

/// The member names of a group's slots, in order.
pub open spec fn json_slot_names(slots: Seq<JsonSlot>) -> Seq<String> {
    slots.map(|i: int, s: JsonSlot| s.name)
}

/// Converts one side of a daily schedule into slot references.
fn slots_from_json(assigns: &Vec<JsonAssignment>) -> (r: Vec<SlotRef>)
    ensures
        r@ == json_slots(assigns@),
{
    let mut out: Vec<SlotRef> = Vec::new();
    let mut i: usize = 0;
    while i < assigns.len()
        invariant
            i <= assigns@.len(),
            out@.len() == i,
            forall|j: int| 0 <= j < i ==> out@[j] == json_slots(assigns@)[j],
        decreases assigns@.len() - i,
    {
        let a = assigns[i];
        out.push(
            SlotRef {
                group_index: a.staff_group_id as usize,
                member_index: a.shift_staff_index as usize,
            },
        );
        i += 1;
    }
    proof {
        assert(out@ =~= json_slots(assigns@));
    }
    out
}

/// Converts one daily schedule into the day pattern derivation works on.
fn day_from_json(day: &JsonDailySchedule) -> (r: DayPattern)
    ensures
        r.morning@ == json_slots(day.m@),
        r.afternoon@ == json_slots(day.a@),
{
    DayPattern { morning: slots_from_json(&day.m), afternoon: slots_from_json(&day.a) }
}

/// Converts a weekly schedule into a week pattern: seven days, Monday first.
pub fn week_from_json(schedule: &JsonWeeklySchedule) -> (r: WeekPattern)
    ensures
        r.days@.len() == 7,
        forall|d: int|
            0 <= d < 7 ==> (#[trigger] r.days@[d]).morning@ == json_slots(
                json_day(*schedule, d).m@,
            ),
        forall|d: int|
            0 <= d < 7 ==> (#[trigger] r.days@[d]).afternoon@ == json_slots(
                json_day(*schedule, d).a@,
            ),
{
    let mut days: Vec<DayPattern> = Vec::new();
    days.push(day_from_json(&schedule.mon));
    days.push(day_from_json(&schedule.tue));
    days.push(day_from_json(&schedule.wed));
    days.push(day_from_json(&schedule.thu));
    days.push(day_from_json(&schedule.fri));
    days.push(day_from_json(&schedule.sat));
    days.push(day_from_json(&schedule.sun));
    WeekPattern { days }
}

/// Builds the rule definition whose rotation cycles through the configured
/// rules' schedules, in order: week pattern `i` is rule `i`'s schedule.
pub fn rules_from_config(config: &JsonConfig) -> (r: RuleDefinition)
    ensures
        r.rotation@.len() == config.rules@.len(),
        forall|i: int|
            0 <= i < config.rules@.len() ==> (#[trigger] r.rotation@[i]).days@.len() == 7,
        forall|i: int, d: int|
            0 <= i < config.rules@.len() && 0 <= d < 7 ==> (#[trigger] r.rotation@[i].days@[d]).morning@
                == json_slots(json_day(config.rules@[i].schedule, d).m@),
        forall|i: int, d: int|
            0 <= i < config.rules@.len() && 0 <= d < 7 ==> (#[trigger] r.rotation@[i].days@[d]).afternoon@
                == json_slots(json_day(config.rules@[i].schedule, d).a@),
{
    let mut rotation: Vec<WeekPattern> = Vec::new();
    let mut i: usize = 0;
    while i < config.rules.len()
        invariant
            i <= config.rules@.len(),
            rotation@.len() == i,
            forall|k: int| 0 <= k < i ==> (#[trigger] rotation@[k]).days@.len() == 7,
            forall|k: int, d: int|
                0 <= k < i && 0 <= d < 7 ==> (#[trigger] rotation@[k].days@[d]).morning@
                    == json_slots(json_day(config.rules@[k].schedule, d).m@),
            forall|k: int, d: int|
                0 <= k < i && 0 <= d < 7 ==> (#[trigger] rotation@[k].days@[d]).afternoon@
                    == json_slots(json_day(config.rules@[k].schedule, d).a@),
        decreases config.rules@.len() - i,
    {
        rotation.push(week_from_json(&config.rules[i].schedule));
        i += 1;
    }
    RuleDefinition { rotation }
}

/// Builds the roster the configured staff groups describe: one roster group
/// per configured group, in order, members named after the group's slots.
pub fn roster_from_config(config: &JsonConfig) -> (r: StaffRoster)
    ensures
        r.groups@.len() == config.staff_groups@.len(),
        forall|i: int|
            0 <= i < config.staff_groups@.len() ==> (#[trigger] r.groups@[i]).name
                == config.staff_groups@[i].name,
        forall|i: int|
            0 <= i < config.staff_groups@.len() ==> (#[trigger] r.groups@[i]).members@
                == json_slot_names(config.staff_groups@[i].slots@),
{
    let mut groups: Vec<RosterGroup> = Vec::new();
    let mut i: usize = 0;
    while i < config.staff_groups.len()
        invariant
            i <= config.staff_groups@.len(),
            groups@.len() == i,
            forall|k: int|
                0 <= k < i ==> (#[trigger] groups@[k]).name == config.staff_groups@[k].name,
            forall|k: int|
                0 <= k < i ==> (#[trigger] groups@[k]).members@ == json_slot_names(
                    config.staff_groups@[k].slots@,
                ),
        decreases config.staff_groups@.len() - i,
    {
        let entry = &config.staff_groups[i];
        let mut members: Vec<String> = Vec::new();
        let mut k: usize = 0;
        while k < entry.slots.len()
            invariant
                k <= entry.slots@.len(),
                members@.len() == k,
                forall|j: int| 0 <= j < k ==> members@[j] == json_slot_names(entry.slots@)[j],
            decreases entry.slots@.len() - k,
        {
            members.push(entry.slots[k].name.clone());
            k += 1;
        }
        proof {
            assert(members@ =~= json_slot_names(entry.slots@));
        }
        groups.push(RosterGroup { name: entry.name.clone(), members });
        i += 1;
    }
    StaffRoster { groups }
}

} // verus!

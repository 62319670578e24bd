use std::collections::HashMap;

use shift_timeline::calendar::ShiftCalendarManager;
use shift_timeline::catalog::{
    Plan, PlanConfig, RuleAssignment, ShiftTime, StaffGroup, StaffGroupWithMembers, StaffMember,
    Weekday, WeeklyRule, WeeklyRuleWithAssignments, group_assignments_by_rule,
    plan_config_to_roster, plan_config_to_rule_map,
};
use shift_timeline::config::{
    JsonAssignment, JsonConfig, JsonDailySchedule, JsonRule, JsonSlot, JsonStaffGroup,
    JsonWeeklySchedule, roster_from_config, rules_from_config,
};
use shift_timeline::rules::{RotationResolver, resolve_week};
use shift_timeline::storage::{RowDecodeError, plan_append_rows};
use shift_timeline::week_status::WeekStatus;

// ---------------------------------------------------------------------
// Stored rows
// ---------------------------------------------------------------------

/// Decoding stored rows: both kinds, and each failure.
#[test]
fn week_status_row_decoding() {
    let r = WeekStatus::from_row("Active", Some(3), Some(7));
    assert_eq!(r, Ok(WeekStatus::Active { logical_delta: 3, rule_id: 7 }));

    let r = WeekStatus::from_row("Skipped", None, None);
    assert_eq!(r, Ok(WeekStatus::Skipped));

    // The stray columns of a skipped row are ignored.
    let r = WeekStatus::from_row("Skipped", Some(1), Some(1));
    assert_eq!(r, Ok(WeekStatus::Skipped));

    assert_eq!(
        WeekStatus::from_row("Active", None, Some(7)),
        Err(RowDecodeError::MissingDelta)
    );
    assert_eq!(
        WeekStatus::from_row("Active", Some(3), None),
        Err(RowDecodeError::MissingRule)
    );
    assert_eq!(
        WeekStatus::from_row("Cancelled", None, None),
        Err(RowDecodeError::UnknownStatusType)
    );
}

/// Planning an append against an empty store: every entry becomes a row at
/// offsets from zero, phases counted from zero.
#[test]
fn plan_append_rows_initial_save() {
    let rows = plan_append_rows(-1, -1, 0, &[Some(1), None, Some(2)]).unwrap();
    assert_eq!(rows.len(), 3, "should have 3 records initially");
    assert_eq!(rows[0].week_offset, 0);
    assert_eq!(rows[0].status, WeekStatus::Active { logical_delta: 0, rule_id: 1 });
    assert_eq!(rows[1].week_offset, 1);
    assert_eq!(rows[1].status, WeekStatus::Skipped);
    assert_eq!(rows[2].week_offset, 2);
    assert_eq!(rows[2].status, WeekStatus::Active { logical_delta: 1, rule_id: 2 });
}

/// Re-submitting the recorded prefix writes nothing; extending it writes
/// only the new suffix, phases continuing from the store's counter.
#[test]
fn plan_append_rows_idempotent_then_extend() {
    // The store holds offsets 0..=2 with highest phase 1 (as after the
    // initial save above). The identical resubmission writes no rows.
    let rows = plan_append_rows(2, 1, 0, &[Some(1), None, Some(2)]).unwrap();
    assert_eq!(rows.len(), 0, "count should ensure idempotency");

    // Submitting five weeks whose first three are already recorded
    // appends exactly the two new ones.
    let rows = plan_append_rows(2, 1, 0, &[Some(1), None, Some(2), None, Some(3)]).unwrap();
    assert_eq!(rows.len(), 2, "should verify 2 new records appended");
    assert_eq!(rows[0].week_offset, 3);
    assert_eq!(rows[0].status, WeekStatus::Skipped);
    assert_eq!(rows[1].week_offset, 4);
    assert_eq!(rows[1].status, WeekStatus::Active { logical_delta: 2, rule_id: 3 });
}

/// A start before the store's base only widens the recorded overlap: the
/// entries landing at or before the cursor are skipped.
#[test]
fn plan_append_rows_start_before_base() {
    let rows =
        plan_append_rows(2, 1, -2, &[Some(9), Some(9), Some(9), Some(9), Some(9), Some(4)])
            .unwrap();
    assert_eq!(rows.len(), 1);
    assert_eq!(rows[0].week_offset, 3);
    assert_eq!(rows[0].status, WeekStatus::Active { logical_delta: 2, rule_id: 4 });
}

/// A start more than one past the store's end is a gap.
#[test]
fn plan_append_rows_gap() {
    let r = plan_append_rows(2, 1, 4, &[Some(1)]);
    assert!(r.is_err());

    // Exactly one past the end is consecutive.
    let rows = plan_append_rows(2, 1, 3, &[Some(1)]).unwrap();
    assert_eq!(rows.len(), 1);
    assert_eq!(rows[0].week_offset, 3);
    assert_eq!(rows[0].status, WeekStatus::Active { logical_delta: 2, rule_id: 1 });
}

// ---------------------------------------------------------------------
// Catalog conversions
// ---------------------------------------------------------------------

fn member(id: i64, group_id: i64, name: &str, sort_order: i64) -> StaffMember {
    StaffMember { id, group_id, name: name.to_string(), sort_order }
}

fn assignment(
    id: i64,
    weekly_rule_id: i64,
    weekday: Weekday,
    shift_time_type: ShiftTime,
    target_group_id: i64,
    target_member_index: usize,
) -> RuleAssignment {
    RuleAssignment { id, weekly_rule_id, weekday, shift_time_type, target_group_id, target_member_index }
}

fn sample_config() -> PlanConfig {
    PlanConfig {
        plan: Plan { id: 1, name: "Test Plan".to_string() },
        groups: vec![
            StaffGroupWithMembers {
                group: StaffGroup {
                    id: 10,
                    plan_id: 1,
                    name: "Kitchen".to_string(),
                    sort_order: 0,
                },
                members: vec![member(100, 10, "Tanaka", 0), member(101, 10, "Suzuki", 1)],
            },
            StaffGroupWithMembers {
                group: StaffGroup {
                    id: 11,
                    plan_id: 1,
                    name: "Hall".to_string(),
                    sort_order: 1,
                },
                members: vec![member(102, 11, "Sato", 0)],
            },
        ],
        rules: vec![WeeklyRuleWithAssignments {
            rule: WeeklyRule {
                id: 20,
                plan_id: 1,
                name: "Basic Week".to_string(),
                sort_order: 0,
            },
            assignments: vec![
                assignment(200, 20, Weekday::Monday, ShiftTime::Morning, 10, 0),
                assignment(201, 20, Weekday::Monday, ShiftTime::Morning, 11, 0),
                assignment(202, 20, Weekday::Monday, ShiftTime::Afternoon, 10, 1),
                assignment(203, 20, Weekday::Friday, ShiftTime::Morning, 10, 1),
            ],
        }],
    }
}

/// The roster keeps the groups' order and member names, and the lookup maps
/// each group id to its position.
#[test]
fn plan_config_roster_conversion() {
    let config = sample_config();
    let (roster, index_of) = plan_config_to_roster(&config);

    assert_eq!(roster.groups.len(), 2);
    assert_eq!(roster.groups[0].name, "Kitchen");
    assert_eq!(
        roster.groups[0].members,
        vec!["Tanaka".to_string(), "Suzuki".to_string()]
    );
    assert_eq!(roster.groups[1].members, vec!["Sato".to_string()]);
    assert_eq!(index_of.get(&10), Some(&0));
    assert_eq!(index_of.get(&11), Some(&1));
    assert_eq!(index_of.get(&12), None);
}

/// The rule map turns assignments into positional slots, and the whole
/// catalog path resolves to the expected names.
#[test]
fn plan_config_rule_map_conversion() {
    let config = sample_config();
    let (roster, index_of) = plan_config_to_roster(&config);
    let rule_map = plan_config_to_rule_map(&config, &index_of);

    let def = rule_map.get(&20).expect("rule 20 is configured");
    assert_eq!(def.rotation.len(), 1);
    let week = &def.rotation[0];
    assert_eq!(week.days.len(), 7);
    assert_eq!(week.days[0].morning.len(), 2);
    assert_eq!(week.days[0].morning[0].group_index, 0);
    assert_eq!(week.days[0].morning[1].group_index, 1);
    assert_eq!(week.days[0].afternoon[0].member_index, 1);
    assert_eq!(week.days[4].morning.len(), 1);
    assert!(week.days[1].morning.is_empty());

    let resolved = resolve_week(def, &roster, 0);
    assert_eq!(
        resolved.days[0].morning,
        vec!["Tanaka".to_string(), "Sato".to_string()]
    );
    assert_eq!(resolved.days[0].afternoon, vec!["Suzuki".to_string()]);
    assert_eq!(resolved.days[4].morning, vec!["Suzuki".to_string()]);
}

/// Grouping attaches each assignment to the rule it references, in order.
#[test]
fn group_assignments_by_rule_filters() {
    let rules = vec![
        WeeklyRule { id: 1, plan_id: 1, name: "Rule A".to_string(), sort_order: 0 },
        WeeklyRule { id: 2, plan_id: 1, name: "Rule B".to_string(), sort_order: 1 },
        WeeklyRule { id: 3, plan_id: 1, name: "Rule C".to_string(), sort_order: 2 },
    ];
    let assignments = vec![
        assignment(1, 1, Weekday::Monday, ShiftTime::Morning, 10, 0),
        assignment(2, 2, Weekday::Tuesday, ShiftTime::Morning, 10, 0),
        assignment(3, 1, Weekday::Friday, ShiftTime::Afternoon, 10, 1),
    ];

    let grouped = group_assignments_by_rule(&rules, &assignments);
    assert_eq!(grouped.len(), 3);
    assert_eq!(grouped[0].rule.name, "Rule A");
    assert_eq!(grouped[0].assignments.len(), 2);
    assert_eq!(grouped[0].assignments[0].id, 1);
    assert_eq!(grouped[0].assignments[1].id, 3);
    assert_eq!(grouped[1].assignments.len(), 1);
    assert!(grouped[2].assignments.is_empty(), "Rule C has no assignments");
}

// ---------------------------------------------------------------------
// File configuration conversions
// ---------------------------------------------------------------------

fn json_day(m: Vec<JsonAssignment>, a: Vec<JsonAssignment>) -> JsonDailySchedule {
    JsonDailySchedule { m, a }
}

fn json_empty_day() -> JsonDailySchedule {
    json_day(vec![], vec![])
}

fn json_assignment(staff_group_id: u32, shift_staff_index: u32) -> JsonAssignment {
    JsonAssignment { staff_group_id, shift_staff_index }
}

fn sample_json_config() -> JsonConfig {
    JsonConfig {
        staff_groups: vec![
            JsonStaffGroup {
                name: "group a".to_string(),
                slots: vec![
                    JsonSlot { name: "Aoki".to_string() },
                    JsonSlot { name: "Baba".to_string() },
                ],
            },
            JsonStaffGroup {
                name: "group b".to_string(),
                slots: vec![JsonSlot { name: "Chiba".to_string() }],
            },
        ],
        rules: vec![
            JsonRule {
                name: "week one".to_string(),
                schedule: JsonWeeklySchedule {
                    mon: json_day(vec![json_assignment(0, 0), json_assignment(1, 0)], vec![]),
                    tue: json_empty_day(),
                    wed: json_empty_day(),
                    thu: json_day(vec![], vec![json_assignment(0, 1)]),
                    fri: json_empty_day(),
                    sat: json_empty_day(),
                    sun: json_empty_day(),
                },
            },
            JsonRule {
                name: "week two".to_string(),
                schedule: JsonWeeklySchedule {
                    mon: json_day(vec![json_assignment(0, 1)], vec![]),
                    tue: json_empty_day(),
                    wed: json_empty_day(),
                    thu: json_empty_day(),
                    fri: json_empty_day(),
                    sat: json_empty_day(),
                    sun: json_empty_day(),
                },
            },
        ],
    }
}

/// The file configuration converts into a roster and a rotation whose
/// resolved weeks carry the configured names, alternating with the phase.
#[test]
fn json_config_conversion_and_resolution() {
    let config = sample_json_config();
    let roster = roster_from_config(&config);
    assert_eq!(roster.groups.len(), 2);
    assert_eq!(roster.groups[0].name, "group a");
    assert_eq!(
        roster.groups[0].members,
        vec!["Aoki".to_string(), "Baba".to_string()]
    );

    let rule = rules_from_config(&config);
    assert_eq!(rule.rotation.len(), 2, "one rotation entry per configured rule");
    assert_eq!(rule.rotation[0].days[0].morning.len(), 2);
    assert_eq!(rule.rotation[0].days[3].afternoon.len(), 1);

    let w0 = resolve_week(&rule, &roster, 0);
    assert_eq!(
        w0.days[0].morning,
        vec!["Aoki".to_string(), "Chiba".to_string()]
    );
    assert_eq!(w0.days[3].afternoon, vec!["Baba".to_string()]);

    let w1 = resolve_week(&rule, &roster, 1);
    assert_eq!(w1.days[0].morning, vec!["Baba".to_string()]);
    assert!(w1.days[3].afternoon.is_empty());
}

/// A derived timeline drives the whole path: timeline, rule map, roster,
/// phase-dependent resolution.
#[test]
fn timeline_to_rule_map_round() {
    let config = sample_config();
    let (roster, index_of) = plan_config_to_roster(&config);
    let rule_map = plan_config_to_rule_map(&config, &index_of);

    let mut m = ShiftCalendarManager::new(2900, 0);
    m.apply_weeks(2900, &[Some(20), None, Some(20)]).unwrap();

    let derived = m.derive_shift(&rule_map, &roster, &RotationResolver, 2900, 3);
    assert_eq!(derived.len(), 3);
    assert!(derived[1].is_none());
    let w = derived[0].as_ref().unwrap();
    assert_eq!(w.days[0].morning, vec!["Tanaka".to_string(), "Sato".to_string()]);

    let mut missing: HashMap<i64, shift_timeline::rules::RuleDefinition> = HashMap::new();
    missing.insert(999, rule_map.get(&20).unwrap().clone());
    let derived = m.derive_shift(&missing, &roster, &RotationResolver, 2900, 3);
    assert!(derived[0].is_none() && derived[2].is_none());
}

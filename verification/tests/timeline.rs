use shift_timeline::calendar::ShiftCalendarManager;
use shift_timeline::week_status::{AppendWeekErrorKind, WeekStatus};

/// Filling an empty calendar, re-describing recorded weeks, and the two
/// rejection cases.
#[test]
fn shift_calendar_manager_test00() {
    let mut shift_calendar_manager = ShiftCalendarManager::new(2000, 0);

    let r = shift_calendar_manager.append_check(
        2000,
        &[
            false, // 2000
            false, // 2001
            true,  // 2002 skip!
            false, // 2003
        ],
    );

    // Appending to an empty timeline is allowed.
    assert!(matches!(r, Ok(())));

    shift_calendar_manager.append_week(false, 1);
    shift_calendar_manager.append_week(false, 1);
    shift_calendar_manager.append_week(true, 1);
    shift_calendar_manager.append_week(false, 1); // 2003

    let r = shift_calendar_manager.append_check(
        2001,
        &[
            false, // 2001
            true,  // 2002
            false, // 2003
            false, // 2004 (new)
        ],
    );

    shift_calendar_manager.append_week(false, 1); // 2004

    assert!(matches!(r, Ok(())));

    let r = shift_calendar_manager.append_check(
        2005,
        &[
            false, // 2005
        ],
    );

    shift_calendar_manager.append_week(false, 1); // 2005
    assert!(matches!(r, Ok(())));

    let r = shift_calendar_manager.append_check(
        2007,
        &[
            false, // 2007
        ],
    );

    assert!(matches!(r, Err(AppendWeekErrorKind::NotConsecutiveShifts)));

    let r = shift_calendar_manager.append_check(
        2001,
        &[
            true,  // 2001
            true,  // 2002
            false, // 2003
            false, // 2004 (new)
        ],
    );

    assert!(matches!(r, Err(AppendWeekErrorKind::AttemptedToOverwrite)));
}

/// Appending far past the end of an empty timeline is a gap.
#[test]
fn shift_calendar_manager_test_test00() {
    let shift_calendar_manager = ShiftCalendarManager::new(2000, 0);

    let r = shift_calendar_manager.append_check(
        2003,
        &[
            false, // 2003
            false, // 2004
            true,  // 2005
        ],
    );
    assert!(matches!(r, Err(AppendWeekErrorKind::NotConsecutiveShifts)));
}

/// Same check as above, showing the result.
#[test]
fn shift_calendar_manager_test_test01() {
    let shift_calendar_manager = ShiftCalendarManager::new(2000, 0);

    let r = shift_calendar_manager.append_check(
        2003,
        &[
            false, // 2003
            false, // 2004
            true,  // 2005
        ],
    );
    println!("{:?}", r);
}

const R1: i64 = 1;

fn phases(m: &ShiftCalendarManager) -> Vec<Option<usize>> {
    m.timeline
        .iter()
        .map(|w| match w {
            WeekStatus::Active { logical_delta, .. } => Some(*logical_delta),
            WeekStatus::Skipped => None,
        })
        .collect()
}

/// A first application yields consecutive phases around a skip; an
/// overlapping re-description appends exactly the one new week.
#[test]
fn apply_weeks_overlapping_resubmission() {
    let mut m = ShiftCalendarManager::new(2000, 0);
    let r = m.apply_weeks(2000, &[Some(R1), Some(R1), None, Some(R1)]);
    assert!(matches!(r, Ok(())));
    assert_eq!(phases(&m), vec![Some(0), Some(1), None, Some(2)]);

    // Re-describes 2001..2003 identically and adds 2004.
    let r = m.apply_weeks(2001, &[Some(R1), None, Some(R1), Some(R1)]);
    assert!(matches!(r, Ok(())));
    assert_eq!(phases(&m), vec![Some(0), Some(1), None, Some(2), Some(3)]);
    assert_eq!(m.timeline.len(), 5);
}

/// A re-description that flips a recorded week from active to skipped is
/// refused and changes nothing.
#[test]
fn apply_weeks_conflicting_resubmission() {
    let mut m = ShiftCalendarManager::new(2000, 0);
    m.apply_weeks(2000, &[Some(R1), Some(R1), None, Some(R1)]).unwrap();
    let before = m.timeline.clone();

    let r = m.apply_weeks(2001, &[None, None, Some(R1), Some(R1)]);
    assert!(matches!(r, Err(AppendWeekErrorKind::AttemptedToOverwrite)));
    assert_eq!(m.timeline, before);
}

/// Applying the identical pattern twice leaves the timeline exactly as
/// after the first application.
#[test]
fn apply_weeks_idempotent() {
    let mut m = ShiftCalendarManager::new(100, 5);
    let pattern = [Some(R1), None, Some(2), Some(R1), None];
    m.apply_weeks(100, &pattern).unwrap();
    let once = m.timeline.clone();

    let r = m.apply_weeks(100, &pattern);
    assert!(matches!(r, Ok(())));
    assert_eq!(m.timeline, once);
}

/// A start one past the end is still consecutive; two past is a gap.
#[test]
fn apply_weeks_gap_rejection() {
    let mut m = ShiftCalendarManager::new(2000, 0);
    m.apply_weeks(2000, &[Some(R1), Some(R1)]).unwrap();

    // Length is 2, so 2002 is the next week and fine.
    assert!(matches!(m.apply_weeks(2002, &[Some(R1)]), Ok(())));
    // 2004 would leave 2003 unfilled.
    let r = m.append_check(2004, &[false]);
    assert!(matches!(r, Err(AppendWeekErrorKind::NotConsecutiveShifts)));
}

/// A target before the base week has no offset.
#[test]
fn apply_weeks_underflow() {
    let mut m = ShiftCalendarManager::new(2000, 0);
    let r = m.apply_weeks(1999, &[Some(R1)]);
    assert!(matches!(r, Err(AppendWeekErrorKind::UnderFlow)));
    assert!(m.timeline.is_empty());

    let r = m.abs_to_index(1999);
    assert!(matches!(r, Err(AppendWeekErrorKind::UnderFlow)));
    assert_eq!(m.abs_to_index(2005).unwrap(), 5);
    assert_eq!(m.to_abs_week(5), 2005);
}

/// Overwrite rejection in the other direction: a recorded skip re-described
/// as active.
#[test]
fn append_check_skip_to_active_conflict() {
    let mut m = ShiftCalendarManager::new(10, 0);
    m.apply_weeks(10, &[Some(R1), None, Some(R1)]).unwrap();
    let r = m.append_check(11, &[false]);
    assert!(matches!(r, Err(AppendWeekErrorKind::AttemptedToOverwrite)));
}

/// The phase counter resumes after skips from the last active phase, and
/// starts at the initial phase.
#[test]
fn append_week_phase_resumption() {
    let mut m = ShiftCalendarManager::new(0, 7);
    m.append_week(true, 0); // leading skip consumes no phase
    m.append_week(false, R1); // phase 7
    m.append_week(true, 0);
    m.append_week(true, 0);
    m.append_week(false, R1); // resumes at 8
    assert_eq!(phases(&m), vec![None, Some(7), None, None, Some(8)]);
}

/// Truncation: at or past the end it is a no-op, in the middle it cuts, and
/// before the base it clears everything.
#[test]
fn truncate_from_cases() {
    let mut m = ShiftCalendarManager::new(2000, 0);
    m.apply_weeks(2000, &[Some(R1), None, Some(R1), Some(R1)]).unwrap();

    let before = m.timeline.clone();
    m.truncate_from(2004); // == base + len: no-op
    assert_eq!(m.timeline, before);
    m.truncate_from(2010); // far in the future: no-op
    assert_eq!(m.timeline, before);

    m.truncate_from(2002);
    assert_eq!(phases(&m), vec![Some(0), None]);

    m.truncate_from(1990);
    assert!(m.timeline.is_empty());
}

/// After truncation the phase counter resumes consistently.
#[test]
fn truncate_then_reapply() {
    let mut m = ShiftCalendarManager::new(2000, 0);
    m.apply_weeks(2000, &[Some(R1), Some(R1), Some(R1)]).unwrap();
    m.truncate_from(2001);
    assert_eq!(phases(&m), vec![Some(0)]);
    m.apply_weeks(2001, &[None, Some(R1)]).unwrap();
    assert_eq!(phases(&m), vec![Some(0), None, Some(1)]);
}

/// Renumbering keeps the skip pattern and rules and restarts phases at the
/// new initial value.
#[test]
fn change_delta_renumbers_actives() {
    let mut m = ShiftCalendarManager::new(2000, 0);
    m.apply_weeks(2000, &[Some(R1), None, Some(2), Some(3)]).unwrap();

    let n = m.change_delta(10);
    assert_eq!(n.base_abs_week, 2000);
    assert_eq!(n.initial_delta, 10);
    assert_eq!(phases(&n), vec![Some(10), None, Some(11), Some(12)]);
    match n.timeline[2] {
        WeekStatus::Active { rule_id, .. } => assert_eq!(rule_id, 2),
        WeekStatus::Skipped => panic!("expected an active entry"),
    }
}

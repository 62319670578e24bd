//! The display-facing shape of a derived range: per-week, per-day name
//! lists, with `None` for weeks that are skipped or not derivable. The
//! surrounding application serializes these; the library only builds them
//! from resolved weeks.

use vstd::prelude::*;

use crate::rules::ResolvedWeek;

verus! {

/// One day of a derived week: the assigned names, morning and afternoon.
#[derive(Clone, Debug, PartialEq, Eq)]
pub struct DailyShiftDto {
    pub morning: Vec<String>,
    pub afternoon: Vec<String>,
}

/// One derived week: its days in week order, Monday first.
#[derive(Clone, Debug, PartialEq, Eq)]
pub struct WeeklyShiftDto {
    pub days: Vec<DailyShiftDto>,
}

/// A derived range in calendar-week order; `None` marks a week with no
/// shift to show.
#[derive(Clone, Debug, PartialEq, Eq)]
pub struct MonthlyShiftResult {
    pub weeks: Vec<Option<WeeklyShiftDto>>,
}

/// Whether a weekly DTO carries exactly the names of a resolved week.
pub open spec fn dto_matches_week(dto: WeeklyShiftDto, week: ResolvedWeek) -> bool {
    &&& dto.days@.len() == week.days@.len()
    &&& forall|d: int|
        0 <= d < week.days@.len() ==> (#[trigger] dto.days@[d]).morning@ == week.days@[d].morning@
    &&& forall|d: int|
        0 <= d < week.days@.len() ==> (#[trigger] dto.days@[d]).afternoon@
            == week.days@[d].afternoon@
}

/// Copies a list of names; the copy holds the same strings.
fn clone_names(names: &Vec<String>) -> (r: Vec<String>)
    ensures
        r@ == names@,
{
    let r = names.clone();
    proof {
        assert forall|i: int| 0 <= i < names@.len() implies r@[i] == names@[i] by {
            assert(cloned::<String>(names[i], r[i]));
        }
        assert(r@ =~= names@);
    }
    r
}

/// Rebuilds one resolved week in its display shape.
pub fn weekly_dto_from_resolved(week: &ResolvedWeek) -> (r: WeeklyShiftDto)
    ensures
        dto_matches_week(r, *week),
{
    let mut days: Vec<DailyShiftDto> = Vec::new();
    let mut d: usize = 0;
    while d < week.days.len()
        invariant
            d <= week.days@.len(),
            days@.len() == d,
            forall|k: int|
                0 <= k < d ==> (#[trigger] days@[k]).morning@ == week.days@[k].morning@,
            forall|k: int|
                0 <= k < d ==> (#[trigger] days@[k]).afternoon@ == week.days@[k].afternoon@,
        decreases week.days@.len() - d,
    {
        let day = &week.days[d];
        days.push(
            DailyShiftDto {
                morning: clone_names(&day.morning),
                afternoon: clone_names(&day.afternoon),
            },
        );
        d += 1;
    }
    WeeklyShiftDto { days }
}

/// Rebuilds a derived range in its display shape: one entry per derived
/// week, `None` kept as `None` and each resolved week copied name for name.
pub fn monthly_shift_from_partial(partial: &Vec<Option<ResolvedWeek>>) -> (r: MonthlyShiftResult)
    ensures
        r.weeks@.len() == partial@.len(),
        forall|j: int|
            0 <= j < partial@.len() ==> ((#[trigger] r.weeks@[j]) is None <==> partial@[j] is None),
        forall|j: int|
            0 <= j < partial@.len() && partial@[j] is Some ==> dto_matches_week(
                (#[trigger] r.weeks@[j]).unwrap(),
                partial@[j].unwrap(),
            ),
{
    let mut weeks: Vec<Option<WeeklyShiftDto>> = Vec::new();
    let mut j: usize = 0;
    while j < partial.len()
        invariant
            j <= partial@.len(),
            weeks@.len() == j,
            forall|k: int|
                0 <= k < j ==> ((#[trigger] weeks@[k]) is None <==> partial@[k] is None),
            forall|k: int|
                0 <= k < j && partial@[k] is Some ==> dto_matches_week(
                    (#[trigger] weeks@[k]).unwrap(),
                    partial@[k].unwrap(),
                ),
        decreases partial@.len() - j,
    {
        let entry = match &partial[j] {
            Some(week) => Some(weekly_dto_from_resolved(week)),
            None => None,
        };
        weeks.push(entry);
        j += 1;
    }
    MonthlyShiftResult { weeks }
}

} // verus!

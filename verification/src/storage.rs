//! The timeline in its stored row form: decoding one persisted row back into
//! a [`WeekStatus`], and planning which rows an incremental append must
//! write given the store's current end and phase counter.

use vstd::prelude::*;

use crate::week_status::{AppendWeekErrorKind, RuleId, WeekStatus, status_skipped};

verus! {

/// Why a stored row could not be decoded into a [`WeekStatus`].
#[derive(Clone, Copy, Debug, PartialEq, Eq, Structural)]
pub enum RowDecodeError {
    /// An active row without a phase value.
    MissingDelta,
    /// An active row without a rule reference.
    MissingRule,
    /// A status kind other than the two known ones.
    UnknownStatusType,
}

/// One timeline row in its stored form: the offset from the base week and
/// the status recorded there.
#[derive(Clone, Copy, Debug, PartialEq, Eq, Structural)]
pub struct StatusRow {
    pub week_offset: i64,
    pub status: WeekStatus,
}

/// Relies on str's `PartialEq`: two string slices compare equal exactly when
/// they hold the same characters.
#[verifier::external_body]
fn str_eq(a: &str, b: &str) -> (r: bool)
    ensures
        r == (a@ == b@),
{
    a == b
}

/// The status a stored row decodes to: an `Active` kind needs both a phase
/// and a rule (phase first), a `Skipped` kind needs nothing, and any other
/// kind is unknown.
pub open spec fn row_status_result(
    status_type: Seq<char>,
    logical_delta: Option<i64>,
    rule_id: Option<i64>,
) -> Result<WeekStatus, RowDecodeError> {
    if status_type == "Active"@ {
        if logical_delta is None {
            Err(RowDecodeError::MissingDelta)
        } else if rule_id is None {
            Err(RowDecodeError::MissingRule)
        } else {
            Ok(
                WeekStatus::Active {
                    logical_delta: logical_delta.unwrap() as usize,
                    rule_id: rule_id.unwrap(),
                },
            )
        }
    } else if status_type == "Skipped"@ {
        Ok(WeekStatus::Skipped)
    } else {
        Err(RowDecodeError::UnknownStatusType)
    }
}

impl WeekStatus {
    /// Decodes a stored row's columns back into a status, as
    /// [`row_status_result`] describes.
    pub fn from_row(status_type: &str, logical_delta: Option<i64>, rule_id: Option<i64>) -> (r:
        Result<WeekStatus, RowDecodeError>)
        ensures
            r == row_status_result(status_type@, logical_delta, rule_id),
    {
        if str_eq(status_type, "Active") {
            match (logical_delta, rule_id) {
                (None, _) => Err(RowDecodeError::MissingDelta),
                (Some(_), None) => Err(RowDecodeError::MissingRule),
                (Some(d), Some(r)) => Ok(
                    WeekStatus::Active { logical_delta: d as usize, rule_id: r },
                ),
            }
        } else if str_eq(status_type, "Skipped") {
            Ok(WeekStatus::Skipped)
        } else {
            Err(RowDecodeError::UnknownStatusType)
        }
    }
}

/// How many entries of a pattern are active (`Some`).
pub open spec fn count_some(p: Seq<Option<RuleId>>) -> nat
    decreases p.len(),
{
    if p.len() == 0 {
        0
    } else {
        count_some(p.drop_last()) + if p.last() is Some {
            1nat
        } else {
            0nat
        }
    }
}

/// `count_some` of a prefix is bounded by its length.
pub proof fn lemma_count_some_le_len(p: Seq<Option<RuleId>>)
    ensures
        count_some(p) <= p.len(),
    decreases p.len(),
{
    if p.len() > 0 {
        lemma_count_some_le_len(p.drop_last());
    }
}

/// Plans the rows an incremental append must write, given the store's
/// current end and phase counter.
///
/// `current_cursor` is the highest recorded week offset (`-1` when nothing
/// is recorded yet), `max_delta` the highest recorded phase (`-1` likewise),
/// and `start_offset` the offset at which `statuses[0]` would land. A start
/// more than one past the cursor would leave a gap and is refused; entries
/// that land at or before the cursor are already recorded and are skipped;
/// the remaining entries become rows at consecutive offsets after the
/// cursor, active ones continuing the phase counter from `max_delta + 1`.
pub fn plan_append_rows(
    current_cursor: i64,
    max_delta: i64,
    start_offset: i64,
    statuses: &[Option<RuleId>],
) -> (r: Result<Vec<StatusRow>, AppendWeekErrorKind>)
    requires
        -1 <= current_cursor,
        -1 <= max_delta,
        current_cursor + statuses@.len() + 1 <= i64::MAX,
        max_delta + statuses@.len() <= i64::MAX,
        current_cursor - start_offset + 1 <= i64::MAX,
    ensures
        start_offset > current_cursor + 1 ==> r == Err::<Vec<StatusRow>, AppendWeekErrorKind>(
            AppendWeekErrorKind::NotConsecutiveShifts,
        ),
        start_offset <= current_cursor + 1 ==> {
            let overlap = if current_cursor - start_offset + 1 >= 0 {
                current_cursor - start_offset + 1
            } else {
                0
            };
            &&& r is Ok
            &&& ({
                let rows = r.unwrap()@;
                let new_len = if overlap >= statuses@.len() {
                    0
                } else {
                    statuses@.len() - overlap
                };
                &&& rows.len() == new_len
                &&& forall|j: int|
                    0 <= j < new_len ==> (#[trigger] rows[j]).week_offset == start_offset
                        + overlap + j
                &&& forall|j: int|
                    0 <= j < new_len ==> status_skipped((#[trigger] rows[j]).status) == (statuses@[
                        overlap + j] is None)
                &&& forall|j: int|
                    0 <= j < new_len && statuses@[overlap + j] is Some ==> (#[trigger] rows[j]).status
                        == (WeekStatus::Active {
                        logical_delta: (max_delta + count_some(
                            statuses@.subrange(overlap, overlap + j + 1),
                        )) as usize,
                        rule_id: statuses@[overlap + j].unwrap(),
                    })
            })
        },
{
    if start_offset > current_cursor + 1 {
        return Err(AppendWeekErrorKind::NotConsecutiveShifts);
    }
    let overlap_i64: i64 = if current_cursor - start_offset + 1 >= 0 {
        current_cursor - start_offset + 1
    } else {
        0
    };
    proof {
        assert(start_offset + overlap_i64 == current_cursor + 1);
    }
    let mut rows: Vec<StatusRow> = Vec::new();
    if overlap_i64 >= statuses.len() as i64 {
        return Ok(rows);
    }
    let overlap: usize = overlap_i64 as usize;
    let ghost overlap_g: int = overlap as int;
    let mut local_delta: i64 = max_delta;
    let mut i: usize = overlap;
    while i < statuses.len()
        invariant
            overlap <= i <= statuses@.len(),
            overlap == overlap_i64,
            0 <= overlap_i64,
            overlap_g == overlap as int,
            start_offset + overlap_g == current_cursor + 1,
            start_offset <= current_cursor + 1,
            current_cursor + statuses@.len() + 1 <= i64::MAX,
            max_delta + statuses@.len() <= i64::MAX,
            -1 <= max_delta,
            rows@.len() == i - overlap,
            local_delta == max_delta + count_some(statuses@.subrange(overlap_g, i as int)),
            local_delta <= max_delta + (i - overlap),
            forall|j: int|
                0 <= j < i - overlap ==> (#[trigger] rows@[j]).week_offset == start_offset
                    + overlap_g + j,
            forall|j: int|
                0 <= j < i - overlap ==> status_skipped((#[trigger] rows@[j]).status) == (statuses@[
                overlap_g + j] is None),
            forall|j: int|
                0 <= j < i - overlap && statuses@[overlap_g + j] is Some ==> (#[trigger] rows@[j]).status
                    == (WeekStatus::Active {
                    logical_delta: (max_delta + count_some(
                        statuses@.subrange(overlap_g, overlap_g + j + 1),
                    )) as usize,
                    rule_id: statuses@[overlap_g + j].unwrap(),
                }),
        decreases statuses@.len() - i,
    {
        proof {
            assert(statuses@.subrange(overlap_g, i + 1).drop_last() =~= statuses@.subrange(
                overlap_g,
                i as int,
            ));
            assert(statuses@.subrange(overlap_g, i + 1).last() == statuses@[i as int]);
            lemma_count_some_le_len(statuses@.subrange(overlap_g, i as int));
        }
        let target_offset: i64 = start_offset + overlap_i64 + (i - overlap) as i64;
        let status = match statuses[i] {
            Some(rule_id) => {
                local_delta = local_delta + 1;
                proof {
                    assert(local_delta >= 0);
                }
                WeekStatus::Active { logical_delta: local_delta as usize, rule_id }
            },
            None => WeekStatus::Skipped,
        };
        rows.push(StatusRow { week_offset: target_offset, status });
        i += 1;
    }
    Ok(rows)
}

} // verus!

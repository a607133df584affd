//! The rows of the image open profile: each stage with its own time and the
//! time spent up to its end, in nanoseconds.
use vstd::prelude::*;

verus! {

/// The longest time a `Duration` holds, in nanoseconds.
pub const MAX_DURATION_NANOS: u128 = 18_446_744_073_709_551_615_999_999_999;

/// A stage of opening an image, the time it took and the time taken up to
/// its end.
#[derive(Debug, Clone, PartialEq, Eq)]
pub struct ProfileTableRow {
    pub stage: String,
    pub delta_nanos: u128,
    pub total_nanos: u128,
}

impl ProfileTableRow {
    pub fn new(stage: &str, delta_nanos: u128, total_nanos: u128) -> (row: Self)
        ensures
            row.stage@ == stage@,
            row.delta_nanos == delta_nanos,
            row.total_nanos == total_nanos,
    {
        Self { stage: stage.to_owned(), delta_nanos, total_nanos }
    }
}

/// The time up to the end of a stage added after `rows`: its own time added
/// to the total of the last row, or its own time when there is none.
pub open spec fn next_total(rows: Seq<ProfileTableRow>, delta_nanos: u128) -> int {
    if rows.len() == 0 {
        delta_nanos as int
    } else {
        rows.last().total_nanos + delta_nanos
    }
}

/// Adds a stage after `rows`, its total counted on from the last row's.
pub fn push_profile_table_row(rows: &mut Vec<ProfileTableRow>, stage: &str, delta_nanos: u128)
    requires
        next_total(old(rows)@, delta_nanos) <= MAX_DURATION_NANOS,
    ensures
        final(rows)@.len() == old(rows)@.len() + 1,
        final(rows)@.take(old(rows)@.len() as int) == old(rows)@,
        final(rows)@.last().stage@ == stage@,
        final(rows)@.last().delta_nanos == delta_nanos,
        final(rows)@.last().total_nanos == next_total(old(rows)@, delta_nanos),
{
    let total = if rows.len() == 0 {
        delta_nanos
    } else {
        rows[rows.len() - 1].total_nanos + delta_nanos
    };
    let ghost before = rows@;
    rows.push(ProfileTableRow::new(stage, delta_nanos, total));
    assert(rows@.take(before.len() as int) == before);
}

} // verus!

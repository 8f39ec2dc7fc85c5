use vstd::prelude::*;

verus! {

/// Daylight-saving status of a day.
#[derive(Clone, Copy, Debug, PartialEq, Eq, Structural)]
pub enum Dst {
    NotInEffect,
    StartsToday,
    InEffect,
    EndsToday,
}

/// Status of a day from UTC offsets in seconds: the zone's offset on a winter
/// and on a summer reference date, and the day's offset at its start and near
/// its end. A zone whose two reference offsets agree observes no DST.
pub open spec fn dst_status_spec(
    winter_offset: i32,
    summer_offset: i32,
    start_of_day_offset: i32,
    end_of_day_offset: i32,
) -> Dst {
    if winter_offset == summer_offset {
        Dst::NotInEffect
    } else if start_of_day_offset < end_of_day_offset {
        Dst::StartsToday
    } else if start_of_day_offset > end_of_day_offset {
        Dst::EndsToday
    } else if start_of_day_offset == summer_offset {
        Dst::InEffect
    } else {
        Dst::NotInEffect
    }
}

/// Decides a day's daylight-saving status from the UTC offsets that the time
/// zone gives (see `dst_status_spec`).
pub fn dst_status(
    winter_offset: i32,
    summer_offset: i32,
    start_of_day_offset: i32,
    end_of_day_offset: i32,
) -> (r: Dst)
    ensures
        r == dst_status_spec(winter_offset, summer_offset, start_of_day_offset, end_of_day_offset),
{
    let is_dst_time_zone = winter_offset != summer_offset;
    if !is_dst_time_zone {
        return Dst::NotInEffect;
    }
    if start_of_day_offset < end_of_day_offset {
        Dst::StartsToday
    } else if start_of_day_offset > end_of_day_offset {
        Dst::EndsToday
    } else if start_of_day_offset == summer_offset {
        Dst::InEffect
    } else {
        Dst::NotInEffect
    }
}

} // verus!

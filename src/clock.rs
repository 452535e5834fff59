use vstd::prelude::*;

verus! {

/// A wall-clock time of day, as the log line shows it.
#[derive(Clone, Copy, PartialEq, Eq, Structural, Debug, Hash)]
pub struct Timestamp {
    pub hour: u8,
    pub minute: u8,
    pub second: u8,
    pub millisecond: u16,
    /// The offset of the clock that gave this time is zero.
    pub is_utc: bool,
}

impl Timestamp {
    /// Every field lies in its range of a time of day.
    pub open spec fn wf(self) -> bool {
        &&& self.hour < 24
        &&& self.minute < 60
        &&& self.second < 60
        &&& self.millisecond < 1000
    }
}

/// Relies on `time::OffsetDateTime::now_local`, which fails when the local
/// offset cannot be found, and on the ranges that `hour`, `minute`, `second`
/// and `millisecond` of `time::OffsetDateTime` document.
#[verifier::external_body]
fn local_now() -> (r: Option<Timestamp>)
    ensures
        r matches Some(t) ==> t.wf(),
{
    match time::OffsetDateTime::now_local() {
        Ok(now) => Some(Timestamp {
            hour: now.hour(),
            minute: now.minute(),
            second: now.second(),
            millisecond: now.millisecond(),
            is_utc: now.offset().is_utc(),
        }),
        Err(_) => None,
    }
}

/// Relies on `time::OffsetDateTime::now_utc`, whose offset is UTC, and on the
/// ranges that `hour`, `minute`, `second` and `millisecond` document.
#[verifier::external_body]
fn utc_now() -> (r: Timestamp)
    ensures
        r.wf(),
        r.is_utc,
{
    let now = time::OffsetDateTime::now_utc();
    Timestamp {
        hour: now.hour(),
        minute: now.minute(),
        second: now.second(),
        millisecond: now.millisecond(),
        is_utc: now.offset().is_utc(),
    }
}

/// The local reading where the local offset was found, else the UTC reading.
pub fn pick_time(local: Option<Timestamp>, utc: Timestamp) -> (r: Timestamp)
    ensures
        r == match local {
            Some(t) => t,
            None => utc,
        },
{
    match local {
        Some(t) => t,
        None => utc,
    }
}

/// The local time of day; where the local offset cannot be found, the time in
/// UTC instead (see `pick_time`). Either way the result is a valid time of day.
pub fn get_offset_time() -> (r: Timestamp)
    ensures
        r.wf(),
{
    let local = local_now();
    let utc = utc_now();
    pick_time(local, utc)
}

} // verus!

use crate::codec::{format_timestamp, spec_format};
use crate::resolve::{opt_bytes, resolve_oldest, spec_resolve};
use crate::sync_error::SyncError;
use crate::timestamp::{EpochTime, Timestamp, NANOS_PER_SEC};
use chrono::{Datelike, TimeZone, Timelike};
use vstd::prelude::*;

verus! {

/// Latest epoch second whose local rendering stays within year 9999 in every
/// timezone: the textual form has a four-digit year, and local offsets lie
/// strictly within one day of UTC, so the last admitted instant is the end
/// of 9999-12-30 23:59:59 UTC.
pub const MAX_FS_SECS: i64 = 253_402_214_399;

/// Everything the caller must write back for one file: the canonical
/// timestamp, its textual form destined for all three embedded fields, and
/// the value for the filesystem's access and modification times.
///
/// `file_time` is absent only when the canonical value names a local time
/// that the timezone skips (a daylight-saving gap), which has no epoch
/// rendering; the embedded fields are still writable then.
pub struct SyncPlan {
    /// The canonical "oldest known" timestamp chosen for the file.
    pub canonical: Timestamp,
    /// `canonical` in the fixed `YYYY:MM:DD HH:MM:SS` form, the value for
    /// all three embedded fields.
    pub field_value: Vec<u8>,
    /// Seconds and nanoseconds since the epoch to set as the file's access
    /// and modification times.
    pub file_time: Option<EpochTime>,
}

/// Relies on `chrono::DateTime::from_timestamp` and
/// `DateTime::with_timezone` with `chrono::Local`: renders an epoch instant
/// as a calendar date and time of day in the local timezone. chrono holds
/// only real calendar dates, local offsets lie strictly within one day of
/// UTC, and the admitted range keeps the local year within four digits; the
/// sub-second remainder passes through unchanged.
#[verifier::external_body]
fn local_calendar_of_epoch(secs: i64, nanos: u32) -> (r: Timestamp)
    requires
        0 <= secs <= MAX_FS_SECS,
        nanos < NANOS_PER_SEC,
    ensures
        r.wf(),
        r.nanos == nanos,
{
    let utc = chrono::DateTime::from_timestamp(secs, nanos).unwrap();
    let local = utc.with_timezone(&chrono::Local);
    Timestamp {
        year: local.year() as u16,
        month: local.month() as u8,
        day: local.day() as u8,
        hour: local.hour() as u8,
        minute: local.minute() as u8,
        second: local.second() as u8,
        nanos,
    }
}

/// Relies on `chrono::TimeZone::with_ymd_and_hms` on `chrono::Local` and
/// `DateTime::timestamp`: the epoch second of the given local calendar date
/// and time, earliest instant on an ambiguous (repeated) local time, absent
/// on a local time the timezone skips. The result depends on the machine's
/// timezone, so nothing more is promised of it.
#[verifier::external_body]
fn epoch_of_local_calendar(t: &Timestamp) -> (r: Option<i64>)
    requires
        t.wf(),
{
    let mapped = chrono::Local.with_ymd_and_hms(
        t.year as i32,
        t.month as u32,
        t.day as u32,
        t.hour as u32,
        t.minute as u32,
        t.second as u32,
    );
    match mapped.earliest() {
        Some(local) => Some(local.timestamp()),
        None => None,
    }
}

/// Plans the sync of one file, given the filesystem-derived candidate
/// explicitly.
///
/// `fs_cand` is the filesystem modification time `fs_time` rendered as a
/// local calendar timestamp; the three raw values are the embedded
/// image-modification, original-capture and digitization fields as read.
/// Fails exactly on a container format without embedded-field support, and
/// then plans no write at all; otherwise the plan carries the earliest of
/// the parsed candidates and `fs_cand`, formatted for the embedded fields,
/// with the filesystem kept at `fs_time` bit for bit when it is itself the
/// earliest.
pub fn plan_with_candidate(
    fs_cand: Timestamp,
    fs_time: EpochTime,
    supports_metadata: bool,
    has_metadata: bool,
    raw_modified: Option<Vec<u8>>,
    raw_original: Option<Vec<u8>>,
    raw_digitized: Option<Vec<u8>>,
) -> (r: Result<SyncPlan, SyncError>)
    requires
        fs_cand.wf(),
        fs_cand.nanos == fs_time.nanos,
    ensures
        r is Ok <==> supports_metadata,
        r matches Err(e) ==> e is NotExifFormat,
        r matches Ok(plan) ==> {
            &&& plan.canonical == spec_resolve(
                fs_cand,
                has_metadata,
                opt_bytes(raw_modified),
                opt_bytes(raw_original),
                opt_bytes(raw_digitized),
            )
            &&& plan.canonical.wf()
            &&& plan.field_value@ == spec_format(plan.canonical)
            &&& (plan.canonical == fs_cand ==> plan.file_time == Some(fs_time))
            &&& (plan.file_time matches Some(ft) ==> ft.nanos == plan.canonical.nanos)
        },
{
    if !supports_metadata {
        return Err(SyncError::NotExifFormat);
    }
    let canonical = resolve_oldest(&fs_cand, has_metadata, &raw_modified, &raw_original, &raw_digitized);
    proof {
        lemma_resolved_wf(
            fs_cand,
            has_metadata,
            opt_bytes(raw_modified),
            opt_bytes(raw_original),
            opt_bytes(raw_digitized),
        );
    }
    let field_value = format_timestamp(&canonical);
    let file_time: Option<EpochTime> = if canonical == fs_cand {
        Some(fs_time)
    } else {
        match epoch_of_local_calendar(&canonical) {
            Some(secs) => Some(EpochTime { secs, nanos: canonical.nanos }),
            None => None,
        }
    };
    Ok(SyncPlan { canonical, field_value, file_time })
}

/// The canonical result is well formed when the filesystem-derived candidate
/// is, and a canonical result other than that candidate is one of the parsed
/// fields, whose sub-second remainder is zero.
proof fn lemma_resolved_wf(
    fs_cand: Timestamp,
    has_metadata: bool,
    r0: Option<Seq<u8>>,
    r1: Option<Seq<u8>>,
    r2: Option<Seq<u8>>,
)
    requires
        fs_cand.wf(),
    ensures
        spec_resolve(fs_cand, has_metadata, r0, r1, r2).wf(),
        spec_resolve(fs_cand, has_metadata, r0, r1, r2) != fs_cand ==> spec_resolve(
            fs_cand,
            has_metadata,
            r0,
            r1,
            r2,
        ).nanos == 0,
{
}

/// Plans the sync of one file from what the collaborators read: the
/// filesystem modification time, the format's support status, whether
/// embedded metadata is present at all, and the three raw field values.
///
/// Fails exactly on a container format without embedded-field support, and
/// then plans no write at all. Otherwise the canonical result is the
/// resolution against the local-calendar rendering of `fs_time`: some
/// well-formed candidate with `fs_time`'s sub-second remainder, and when no
/// embedded metadata is present — so the filesystem time is canonical — the
/// planned file time is `fs_time` itself, bit for bit.
pub fn plan_sync(
    fs_time: EpochTime,
    supports_metadata: bool,
    has_metadata: bool,
    raw_modified: Option<Vec<u8>>,
    raw_original: Option<Vec<u8>>,
    raw_digitized: Option<Vec<u8>>,
) -> (r: Result<SyncPlan, SyncError>)
    requires
        0 <= fs_time.secs <= MAX_FS_SECS,
        fs_time.nanos < NANOS_PER_SEC,
    ensures
        r is Ok <==> supports_metadata,
        r matches Err(e) ==> e is NotExifFormat,
        r matches Ok(plan) ==> {
            &&& plan.canonical.wf()
            &&& plan.field_value@ == spec_format(plan.canonical)
            &&& (plan.file_time matches Some(ft) ==> ft.nanos == plan.canonical.nanos)
            &&& (!has_metadata ==> plan.file_time == Some(fs_time))
            &&& exists|fs_cand: Timestamp|
                {
                    &&& fs_cand.wf()
                    &&& fs_cand.nanos == fs_time.nanos
                    &&& plan.canonical == spec_resolve(
                        fs_cand,
                        has_metadata,
                        opt_bytes(raw_modified),
                        opt_bytes(raw_original),
                        opt_bytes(raw_digitized),
                    )
                    &&& (plan.canonical == fs_cand ==> plan.file_time == Some(fs_time))
                }
        },
{
    let fs_cand = local_calendar_of_epoch(fs_time.secs, fs_time.nanos);
    let r = plan_with_candidate(
        fs_cand,
        fs_time,
        supports_metadata,
        has_metadata,
        raw_modified,
        raw_original,
        raw_digitized,
    );
    proof {
        if r is Ok {
            let plan = r->Ok_0;
            assert({
                &&& fs_cand.wf()
                &&& fs_cand.nanos == fs_time.nanos
                &&& plan.canonical == spec_resolve(
                    fs_cand,
                    has_metadata,
                    opt_bytes(raw_modified),
                    opt_bytes(raw_original),
                    opt_bytes(raw_digitized),
                )
                &&& (plan.canonical == fs_cand ==> plan.file_time == Some(fs_time))
            });
        }
    }
    r
}

} // verus!

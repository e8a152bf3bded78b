use crate::codec::{parse_timestamp, spec_format, spec_parse};
use crate::timestamp::{spec_min, Timestamp};
use vstd::prelude::*;

verus! {

// The decision core: out of the filesystem-derived candidate and the embedded
// candidates that parse, the canonical result is the earliest. The
// filesystem time always takes part in the comparison, so a later embedded
// value can never push the canonical result forward.

/// Raw bytes of an embedded field, if the field was present and readable.
pub open spec fn opt_bytes(o: Option<Vec<u8>>) -> Option<Seq<u8>> {
    match o {
        Some(v) => Some(v@),
        None => None,
    }
}

/// What parsing an optional raw field yields: an absent field and a
/// malformed one alike contribute no candidate.
pub open spec fn spec_parse_opt(o: Option<Seq<u8>>) -> Option<Timestamp> {
    match o {
        Some(s) => spec_parse(s),
        None => None,
    }
}

/// Folds one optional candidate into the running minimum.
pub open spec fn consider(cur: Timestamp, cand: Option<Timestamp>) -> Timestamp {
    match cand {
        Some(c) => spec_min(cur, c),
        None => cur,
    }
}

/// The earliest of the filesystem-derived candidate and the parsed embedded
/// candidates, in the fixed field order.
pub open spec fn spec_oldest(
    fs: Timestamp,
    c0: Option<Timestamp>,
    c1: Option<Timestamp>,
    c2: Option<Timestamp>,
) -> Timestamp {
    consider(consider(consider(fs, c0), c1), c2)
}

/// The canonical result for one file: the filesystem-derived candidate alone
/// when no embedded metadata is present, otherwise the earliest of it and
/// whichever of the three raw fields parse.
pub open spec fn spec_resolve(
    fs: Timestamp,
    has_metadata: bool,
    raw_modified: Option<Seq<u8>>,
    raw_original: Option<Seq<u8>>,
    raw_digitized: Option<Seq<u8>>,
) -> Timestamp {
    if has_metadata {
        spec_oldest(
            fs,
            spec_parse_opt(raw_modified),
            spec_parse_opt(raw_original),
            spec_parse_opt(raw_digitized),
        )
    } else {
        fs
    }
}

/// Computes the canonical timestamp for one file.
///
/// `fs` is the candidate derived from the filesystem modification time; the
/// three raw values are the embedded image-modification, original-capture and
/// digitization fields as read, absent when the file does not carry them.
/// Malformed raw values are discarded, never an error.
pub fn resolve_oldest(
    fs: &Timestamp,
    has_metadata: bool,
    raw_modified: &Option<Vec<u8>>,
    raw_original: &Option<Vec<u8>>,
    raw_digitized: &Option<Vec<u8>>,
) -> (r: Timestamp)
    ensures
        r == spec_resolve(
            *fs,
            has_metadata,
            opt_bytes(*raw_modified),
            opt_bytes(*raw_original),
            opt_bytes(*raw_digitized),
        ),
{
    if !has_metadata {
        return *fs;
    }
    let mut oldest: Timestamp = *fs;
    oldest = fold_candidate(oldest, raw_modified);
    oldest = fold_candidate(oldest, raw_original);
    oldest = fold_candidate(oldest, raw_digitized);
    oldest
}

/// Parses one optional raw field and keeps the earlier of it and the running
/// minimum.
fn fold_candidate(cur: Timestamp, raw: &Option<Vec<u8>>) -> (r: Timestamp)
    ensures
        r == consider(cur, spec_parse_opt(opt_bytes(*raw))),
{
    match raw {
        Some(bytes) => {
            match parse_timestamp(bytes.as_slice()) {
                Some(cand) => {
                    if cur.le(&cand) {
                        cur
                    } else {
                        cand
                    }
                },
                None => cur,
            }
        },
        None => cur,
    }
}

/// With no embedded metadata, and likewise with embedded metadata whose three
/// target fields are all absent, the canonical result is exactly the
/// filesystem-derived candidate.
pub proof fn lemma_filesystem_time_alone(fs: Timestamp)
    ensures
        spec_resolve(fs, false, None, None, None) == fs,
        spec_resolve(fs, true, None, None, None) == fs,
        forall|r0: Option<Seq<u8>>, r1: Option<Seq<u8>>, r2: Option<Seq<u8>>|
            spec_resolve(fs, false, r0, r1, r2) == fs,
{
}

/// The canonical result is the minimum of the parsed candidates together
/// with the filesystem-derived candidate: it is at or before every member of
/// that set, and it is itself a member.
pub proof fn lemma_oldest_is_minimum(
    fs: Timestamp,
    c0: Option<Timestamp>,
    c1: Option<Timestamp>,
    c2: Option<Timestamp>,
)
    ensures
        spec_oldest(fs, c0, c1, c2).spec_le(fs),
        c0 matches Some(c) ==> spec_oldest(fs, c0, c1, c2).spec_le(c),
        c1 matches Some(c) ==> spec_oldest(fs, c0, c1, c2).spec_le(c),
        c2 matches Some(c) ==> spec_oldest(fs, c0, c1, c2).spec_le(c),
        spec_oldest(fs, c0, c1, c2) == fs || Some(spec_oldest(fs, c0, c1, c2)) == c0
            || Some(spec_oldest(fs, c0, c1, c2)) == c1 || Some(spec_oldest(fs, c0, c1, c2)) == c2,
{
}

/// A malformed raw field influences the result exactly as an absent one: it
/// is excluded from the comparison, and resolution never fails on it.
pub proof fn lemma_malformed_is_absent(
    fs: Timestamp,
    has_metadata: bool,
    r0: Option<Seq<u8>>,
    r1: Option<Seq<u8>>,
    r2: Option<Seq<u8>>,
)
    ensures
        r0 matches Some(s) && spec_parse(s) is None ==> spec_resolve(fs, has_metadata, r0, r1, r2)
            == spec_resolve(fs, has_metadata, None, r1, r2),
        r1 matches Some(s) && spec_parse(s) is None ==> spec_resolve(fs, has_metadata, r0, r1, r2)
            == spec_resolve(fs, has_metadata, r0, None, r2),
        r2 matches Some(s) && spec_parse(s) is None ==> spec_resolve(fs, has_metadata, r0, r1, r2)
            == spec_resolve(fs, has_metadata, r0, r1, None),
{
}

/// Idempotence of the sync: after a first run wrote canonical result `c`
/// into the filesystem time and all three embedded fields, a second run
/// resolves to `c` again. The premise on the sub-second remainder reflects
/// the written fields: the textual form carries whole seconds only, so only
/// a whole-second canonical result survives the re-read bit for bit.
pub proof fn lemma_sync_idempotent(c: Timestamp)
    requires
        c.wf(),
        c.nanos == 0,
    ensures
        spec_resolve(
            c,
            true,
            Some(spec_format(c)),
            Some(spec_format(c)),
            Some(spec_format(c)),
        ) == c,
{
    crate::codec::lemma_format_parse_round_trip(c);
}

} // verus!

use vstd::prelude::*;

use vstd::arithmetic::div_mod::lemma_mod_multiples_vanish;

use crate::numfmt::{two_digit_str, two_digit_string};

verus! {

/// Whether chrono can represent this many seconds since the Unix epoch as
/// an instant. True of every realistic timestamp; the exact bounds belong
/// to chrono, not to this library.
pub uninterp spec fn epoch_in_chrono_range(secs: int) -> bool;

/// Relies on chrono's `DateTime::<Utc>::from_timestamp`: it returns `Some`
/// exactly on the timestamps chrono can represent, and the epoch itself
/// (1970-01-01 00:00:00 UTC) is representable.
#[verifier::external_body]
fn timestamp_valid(secs: i64) -> (r: bool)
    ensures
        r == epoch_in_chrono_range(secs as int),
        secs == 0 ==> r,
{
    chrono::DateTime::<chrono::Utc>::from_timestamp(secs, 0).is_some()
}

/// Relies on chrono's `Local`: the offset of a local instant is a
/// `FixedOffset`, which by construction holds strictly fewer seconds than a
/// day, either way from UTC. Which offset comes back depends on the
/// machine's time zone, so nothing more is stated.
#[verifier::external_body]
pub(crate) fn local_offset_seconds(secs: i64) -> (r: i32)
    ensures
        -86400 < r < 86400,
{
    match chrono::DateTime::<chrono::Utc>::from_timestamp(secs, 0) {
        Some(dt) => dt.with_timezone(&chrono::Local).offset().local_minus_utc(),
        None => 0,
    }
}

/// A second-of-day rendered as `HH:MM:SS`, zero-padded, 24-hour.
pub open spec fn hms_str(sod: int) -> Seq<char> {
    two_digit_str(sod / 3600) + ":"@ + two_digit_str((sod % 3600) / 60) + ":"@ + two_digit_str(
        sod % 60,
    )
}

/// What a timestamp displays as under a given local offset: the local
/// time of day, or the fixed notice when chrono cannot represent it.
pub open spec fn time_spec(epoch: u64, off: int) -> Seq<char> {
    if epoch <= i64::MAX && epoch_in_chrono_range(epoch as int) {
        hms_str((epoch + off) % 86400)
    } else {
        "Invalid timestamp"@
    }
}

/// Renders a timestamp as a time of day under the given UTC offset.
pub fn readable_time(epoch: u64, offset: i32) -> (r: String)
    requires
        -86400 < offset < 86400,
    ensures
        r@ == time_spec(epoch, offset as int),
        epoch == 0 && offset == 0 ==> r@ == "00:00:00"@,
{
    if epoch > i64::MAX as u64 {
        return String::from_str("Invalid timestamp");
    }
    if !timestamp_valid(epoch as i64) {
        return String::from_str("Invalid timestamp");
    }
    proof {
        if epoch == 0 && offset == 0 {
            lemma_midnight_format();
        }
    }
    let shift: u64 = (offset + 86400) as u64;
    let total: u128 = epoch as u128 + shift as u128;
    let ds: u64 = (total % 86400) as u64;
    proof {
        lemma_mod_multiples_vanish(1, epoch + offset, 86400);
        assert(ds == (epoch + offset) % 86400);
        assert(ds < 86400);
        assert(ds / 3600 < 24) by (nonlinear_arith)
            requires
                ds < 86400,
        ;
        assert((ds % 3600) / 60 < 60) by (nonlinear_arith);
    }
    let h: u64 = ds / 3600;
    let m: u64 = (ds % 3600) / 60;
    let sec: u64 = ds % 60;
    let mut out = two_digit_string(h);
    out.append(":");
    let mm = two_digit_string(m);
    out.append(mm.as_str());
    out.append(":");
    let ss = two_digit_string(sec);
    out.append(ss.as_str());
    out
}

/// Renders a timestamp in the machine's local time zone, as the report
/// lines do for sunrise and sunset.
pub fn convert_unix_to_readable_time(unix_time: u64) -> (r: String)
    ensures
        exists|off: int| -86400 < off < 86400 && r@ == time_spec(unix_time, off),
{
    if unix_time > i64::MAX as u64 {
        let r = String::from_str("Invalid timestamp");
        proof {
            assert(-86400 < 0 < 86400 && r@ == time_spec(unix_time, 0));
        }
        return r;
    }
    if !timestamp_valid(unix_time as i64) {
        let r = String::from_str("Invalid timestamp");
        proof {
            assert(-86400 < 0 < 86400 && r@ == time_spec(unix_time, 0));
        }
        return r;
    }
    let off = local_offset_seconds(unix_time as i64);
    readable_time(unix_time, off)
}

/// The epoch instant formats as midnight under a zero (UTC) offset.
pub proof fn lemma_midnight_format()
    ensures
        hms_str(0) == "00:00:00"@,
{
    reveal_strlit("00:00:00");
    reveal_strlit(":");
    assert(hms_str(0) =~= "00:00:00"@);
}

} // verus!

//! Where an AVC decoder configuration holds parameter-set extensions, and
//! whether the decoder's arithmetic can overflow on them.
//!
//! A configuration is six bytes, the second of them the profile; a list of
//! sequence parameter sets, as many as the low five bits of the sixth byte
//! say; one byte with the number of picture parameter sets, and their list;
//! and, for a profile other than 66, 77 and 88 and where bytes are left, four
//! bytes, the last of them the number of parameter-set extensions, and their
//! list. Each member of a list is two bytes of length and as many of data.
//! The decoder reads exponential-Golomb codes out of the data of an
//! extension, and out of nothing else; it reads one extension after the
//! other, and stops at the first that it cannot read.

use crate::golomb::{extension_end, read_extension, Reading};
use crate::octets::{read_u16, u16_at};
use vstd::prelude::*;

verus! {

/// Where a list of `count` members ends that starts at `at`, or `None` where
/// the bytes up to `end` do not hold all of it.
pub open spec fn after_sets(payload: Seq<u8>, end: int, at: int, count: nat) -> Option<int>
    decreases count,
{
    if count == 0 {
        Some(at)
    } else if at + 2 > end || at + 2 + u16_at(payload, at) > end {
        None
    } else {
        after_sets(payload, end, at + 2 + u16_at(payload, at), (count - 1) as nat)
    }
}

/// Whether the decoder's arithmetic overflows on one of the `count`
/// parameter-set extensions from `at` on: on the first, or on a later one
/// after it has read those before.
pub open spec fn extensions_at_risk(payload: Seq<u8>, end: int, at: int, count: nat) -> bool
    decreases count,
{
    if count == 0 || at + 2 > end || at + 2 + u16_at(payload, at) > end {
        false
    } else {
        match extension_end(payload, at + 2, at + 2 + u16_at(payload, at)) {
            Reading::Overflow => true,
            Reading::Failed => false,
            Reading::Passed => extensions_at_risk(
                payload,
                end,
                at + 2 + u16_at(payload, at),
                (count - 1) as nat,
            ),
        }
    }
}

/// Whether the profile of a configuration is one without parameter-set
/// extensions.
pub open spec fn is_plain_profile(profile: u8) -> bool {
    profile == 66 || profile == 77 || profile == 88
}

/// Whether the decoder's arithmetic overflows on the AVC decoder
/// configuration that the bytes of `payload` from `at` up to `end` hold: the
/// decoder comes to the parameter-set extensions, and overflows on one of
/// them.
pub open spec fn configuration_at_risk(payload: Seq<u8>, end: int, at: int) -> bool {
    &&& 0 <= at && end <= payload.len()
    &&& at + 6 <= end
    &&& !is_plain_profile(payload[at + 1])
    &&& match after_sets(payload, end, at + 6, (payload[at + 5] & 0x1f) as nat) {
        None => false,
        Some(pictures) => pictures < end && match after_sets(
            payload,
            end,
            pictures + 1,
            payload[pictures] as nat,
        ) {
            None => false,
            Some(rest) => rest + 4 <= end && extensions_at_risk(
                payload,
                end,
                rest + 4,
                payload[rest + 3] as nat,
            ),
        },
    }
}

/// Skips a list of `count` members that starts at `at`.
fn skip_sets(payload: &[u8], end: usize, at: usize, count: u8) -> (after: Option<usize>)
    requires
        at <= end <= payload@.len(),
    ensures
        match (after, after_sets(payload@, end as int, at as int, count as nat)) {
            (Some(found), Some(a)) => found == a && at <= found <= end,
            (None, None) => true,
            _ => false,
        },
{
    let mut cur: usize = at;
    let mut left: u8 = count;
    while left > 0
        invariant
            at <= cur <= end <= payload@.len(),
            after_sets(payload@, end as int, cur as int, left as nat) == after_sets(
                payload@,
                end as int,
                at as int,
                count as nat,
            ),
        decreases left,
    {
        if end - cur < 2 {
            return None;
        }
        let n: usize = read_u16(payload, cur);
        if n > end - cur - 2 {
            return None;
        }
        cur = cur + 2 + n;
        left = left - 1;
    }
    Some(cur)
}

/// Whether the decoder's arithmetic overflows on the AVC decoder
/// configuration that the bytes of `payload` from `at` up to `end` hold.
pub fn is_configuration_at_risk(payload: &[u8], end: usize, at: usize) -> (risk: bool)
    ensures
        risk == configuration_at_risk(payload@, end as int, at as int),
{
    if at > end || end > payload.len() || end - at < 6 {
        return false;
    }
    let profile: u8 = payload[at + 1];
    if profile == 66 || profile == 77 || profile == 88 {
        return false;
    }
    let pictures: usize = match skip_sets(payload, end, at + 6, payload[at + 5] & 0x1f) {
        Some(after) => after,
        None => { return false; },
    };
    if pictures >= end {
        return false;
    }
    let rest: usize = match skip_sets(payload, end, pictures + 1, payload[pictures]) {
        Some(after) => after,
        None => { return false; },
    };
    if end - rest < 4 {
        return false;
    }
    let count: u8 = payload[rest + 3];
    let mut cur: usize = rest + 4;
    let mut left: u8 = count;
    while left > 0
        invariant
            rest + 4 <= cur <= end <= payload@.len(),
            extensions_at_risk(payload@, end as int, cur as int, left as nat)
                == configuration_at_risk(payload@, end as int, at as int),
        decreases left,
    {
        if end - cur < 2 {
            return false;
        }
        let n: usize = read_u16(payload, cur);
        if n > end - cur - 2 {
            return false;
        }
        match read_extension(payload, cur + 2, cur + 2 + n) {
            Reading::Overflow => { return true; },
            Reading::Failed => { return false; },
            Reading::Passed => {},
        }
        cur = cur + 2 + n;
        left = left - 1;
    }
    false
}

} // verus!

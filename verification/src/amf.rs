//! How deep the containers of AMF0 metadata nest.
//!
//! The metadata of a video packet is a run of entries, each a string and a
//! value. A value starts with a marker byte. Objects, typed objects, arrays
//! with keys and arrays without are containers: their members are values
//! again, those of the first three each after a key. The decoder reads the
//! members of a container by calling itself, so that the depth of its stack
//! follows the depth to which containers lie within containers. This module
//! follows the same bytes without decoding anything, and stops where the
//! depth passes a limit.
//!
//! The decoder may hold one marker that it has read and not used yet. It does
//! so at the end of an array with keys that no end marker closes. A key is
//! read past such a marker, which then stands for the marker of the value
//! after that key. The walk here does the same.

use crate::octets::{read_u16, read_u32, u16_at, u32_at};
use vstd::prelude::*;

verus! {

/// The most containers that may lie within one another in metadata that is
/// handed to the decoder.
pub const NESTING_LIMIT: usize = 64;

/// How the members of a container are laid out.
#[derive(Clone, Copy, Debug, PartialEq, Eq)]
pub enum Members {
    /// Keys and values, up to an empty key before an end marker.
    Object,
    /// A counted number of keys and values, and an end marker if one follows.
    Keyed,
    /// A counted number of values.
    Plain,
}

/// Where the walk over a value came to.
#[derive(Clone, Copy, Debug, PartialEq, Eq)]
pub enum Walk {
    /// The value ends before `at`; `pending` is a marker read and not used.
    End { at: usize, pending: Option<u8> },
    /// The bytes end within the value, or hold a marker that starts no value:
    /// the decoder stops there with an error.
    Cut,
    /// More than the allowed number of containers lie within one another.
    TooDeep,
}

/// The mathematical value of a [`Walk`].
pub enum WalkModel {
    End { at: int, pending: Option<u8> },
    Cut,
    TooDeep,
}

impl View for Walk {
    type V = WalkModel;

    open spec fn view(&self) -> WalkModel {
        match self {
            Walk::End { at, pending } => WalkModel::End { at: *at as int, pending: *pending },
            Walk::Cut => WalkModel::Cut,
            Walk::TooDeep => WalkModel::TooDeep,
        }
    }
}

/// One for a marker held, zero for none: what a step that reads no byte
/// still uses up.
pub open spec fn held(pending: Option<u8>) -> int {
    if pending is Some {
        1
    } else {
        0
    }
}

/// The next marker and the position after it: the marker held, or else the
/// byte at `at`, where there is one and it is a marker, that is, at most 0x11.
pub open spec fn next_marker(payload: Seq<u8>, end: int, at: int, pending: Option<u8>) -> Option<
    (u8, int),
> {
    match pending {
        Some(marker) => Some((marker, at)),
        None => if 0 <= at < end && payload[at] <= 0x11 {
            Some((payload[at], at + 1))
        } else {
            None
        },
    }
}

/// Where the string ends whose two bytes of length start at `at`.
pub open spec fn short_string_end(payload: Seq<u8>, end: int, at: int) -> Option<int> {
    if 0 <= at && at + 2 <= end && at + 2 + u16_at(payload, at) <= end {
        Some(at + 2 + u16_at(payload, at))
    } else {
        None
    }
}

/// Where the string ends whose four bytes of length start at `at`.
pub open spec fn long_string_end(payload: Seq<u8>, end: int, at: int) -> Option<int> {
    if 0 <= at && at + 4 <= end && at + 4 + u32_at(payload, at) <= end {
        Some(at + 4 + u32_at(payload, at))
    } else {
        None
    }
}

/// Follows the value that starts at `at`, or with the marker held, within the
/// bytes up to `end`. `room` is the number of containers that may still be
/// opened. Markers: 0 a number of eight bytes, 1 a boolean of one, 2 a string,
/// 3 an object, 5 and 6 nothing, 8 an array with keys, 0x0a an array without,
/// 0x0b a date of ten bytes, 0x0c and 0x0f a long string, 0x10 an object
/// after its name.
pub open spec fn value_end(
    payload: Seq<u8>,
    end: int,
    at: int,
    pending: Option<u8>,
    room: nat,
) -> WalkModel
    decreases end - at, held(pending), 0int,
{
    if at < 0 || at > end || end > payload.len() {
        WalkModel::Cut
    } else {
        match next_marker(payload, end, at, pending) {
            None => WalkModel::Cut,
            Some((marker, a)) => {
                if marker == 0 {
                    if a + 8 <= end {
                        WalkModel::End { at: a + 8, pending: None }
                    } else {
                        WalkModel::Cut
                    }
                } else if marker == 0x0b {
                    if a + 10 <= end {
                        WalkModel::End { at: a + 10, pending: None }
                    } else {
                        WalkModel::Cut
                    }
                } else if marker == 1 {
                    if a + 1 <= end {
                        WalkModel::End { at: a + 1, pending: None }
                    } else {
                        WalkModel::Cut
                    }
                } else if marker == 2 {
                    match short_string_end(payload, end, a) {
                        Some(e) => WalkModel::End { at: e, pending: None },
                        None => WalkModel::Cut,
                    }
                } else if marker == 0x0c || marker == 0x0f {
                    match long_string_end(payload, end, a) {
                        Some(e) => WalkModel::End { at: e, pending: None },
                        None => WalkModel::Cut,
                    }
                } else if marker == 5 || marker == 6 {
                    WalkModel::End { at: a, pending: None }
                } else if marker == 3 {
                    if room == 0 {
                        WalkModel::TooDeep
                    } else {
                        members_end(
                            payload,
                            end,
                            a,
                            None,
                            Members::Object,
                            0,
                            (room - 1) as nat,
                        )
                    }
                } else if marker == 0x10 {
                    if room == 0 {
                        WalkModel::TooDeep
                    } else {
                        match short_string_end(payload, end, a) {
                            Some(n) => members_end(
                                payload,
                                end,
                                n,
                                None,
                                Members::Object,
                                0,
                                (room - 1) as nat,
                            ),
                            None => WalkModel::Cut,
                        }
                    }
                } else if marker == 8 || marker == 0x0a {
                    if room == 0 {
                        WalkModel::TooDeep
                    } else if a + 4 > end {
                        WalkModel::Cut
                    } else {
                        members_end(
                            payload,
                            end,
                            a + 4,
                            None,
                            if marker == 8 {
                                Members::Keyed
                            } else {
                                Members::Plain
                            },
                            u32_at(payload, a) as nat,
                            (room - 1) as nat,
                        )
                    }
                } else {
                    WalkModel::Cut
                }
            },
        }
    }
}

/// Follows the members of a container from `at` on, of which `count` are
/// left where the container counts them, and gives where the container ends.
pub open spec fn members_end(
    payload: Seq<u8>,
    end: int,
    at: int,
    pending: Option<u8>,
    kind: Members,
    count: nat,
    room: nat,
) -> WalkModel
    decreases end - at, held(pending), 1int,
{
    if at < 0 || at > end {
        WalkModel::Cut
    } else {
        match kind {
            Members::Object => match short_string_end(payload, end, at) {
                None => WalkModel::Cut,
                Some(k) => if k == at + 2 {
                    // An empty key: the end of the object, where the end
                    // marker follows.
                    match next_marker(payload, end, k, pending) {
                        None => WalkModel::Cut,
                        Some((marker, a)) => if marker == 9 {
                            WalkModel::End { at: a, pending: None }
                        } else {
                            match value_end(payload, end, a, Some(marker), room) {
                                WalkModel::End { at: v, pending: q } => if at < v <= end {
                                    members_end(payload, end, v, q, kind, count, room)
                                } else {
                                    WalkModel::TooDeep
                                },
                                other => other,
                            }
                        },
                    }
                } else {
                    match value_end(payload, end, k, pending, room) {
                        WalkModel::End { at: v, pending: q } => if at < v <= end {
                            members_end(payload, end, v, q, kind, count, room)
                        } else {
                            WalkModel::TooDeep
                        },
                        other => other,
                    }
                },
            },
            Members::Keyed => if count == 0 {
                if pending is None && at >= end {
                    WalkModel::End { at, pending: None }
                } else {
                    match next_marker(payload, end, at, pending) {
                        None => WalkModel::Cut,
                        Some((marker, a)) => WalkModel::End {
                            at: a,
                            pending: if marker == 9 {
                                None
                            } else {
                                Some(marker)
                            },
                        },
                    }
                }
            } else {
                match short_string_end(payload, end, at) {
                    None => WalkModel::Cut,
                    Some(k) => match value_end(payload, end, k, pending, room) {
                        WalkModel::End { at: v, pending: q } => if at < v <= end {
                            members_end(payload, end, v, q, kind, (count - 1) as nat, room)
                        } else {
                            WalkModel::TooDeep
                        },
                        other => other,
                    },
                }
            },
            Members::Plain => if count == 0 {
                WalkModel::End { at, pending }
            } else {
                match value_end(payload, end, at, pending, room) {
                    WalkModel::End { at: v, pending: q } => if at < v <= end || (v == at && held(q)
                        < held(pending)) {
                        members_end(payload, end, v, q, kind, (count - 1) as nat, room)
                    } else {
                        WalkModel::TooDeep
                    },
                    other => other,
                }
            },
        }
    }
}

/// Whether, in the entries of metadata from `at` up to `end`, more than
/// [`NESTING_LIMIT`] containers lie within one another before the decoder
/// stops. An entry is a string, short or long, and a value.
pub open spec fn entries_nest_too_deep(
    payload: Seq<u8>,
    end: int,
    at: int,
    pending: Option<u8>,
) -> bool
    decreases end - at,
{
    if at < 0 || at > end {
        false
    } else {
        match next_marker(payload, end, at, pending) {
            None => false,
            Some((marker, a)) => {
                let key = if marker == 2 {
                    short_string_end(payload, end, a)
                } else if marker == 0x0c || marker == 0x0f {
                    long_string_end(payload, end, a)
                } else {
                    None
                };
                match key {
                    None => false,
                    Some(k) => match value_end(payload, end, k, None, NESTING_LIMIT as nat) {
                        WalkModel::TooDeep => true,
                        WalkModel::Cut => false,
                        WalkModel::End { at: v, pending: q } => v <= at || v > end
                            || entries_nest_too_deep(
                            payload,
                            end,
                            v,
                            q,
                        ),
                    },
                }
            },
        }
    }
}

/// Whether the metadata that the bytes of `payload` from `from` up to `to`
/// hold nests too deep.
pub open spec fn metadata_nests_too_deep(payload: Seq<u8>, from: int, to: int) -> bool {
    to <= payload.len() && entries_nest_too_deep(payload, to, from, None)
}

fn take_marker(payload: &[u8], end: usize, at: usize, pending: Option<u8>) -> (r: Option<
    (u8, usize),
>)
    requires
        at <= end <= payload@.len(),
    ensures
        match (r, next_marker(payload@, end as int, at as int, pending)) {
            (Some((m, a)), Some((sm, sa))) => m == sm && a == sa && at <= a <= end,
            (None, None) => true,
            _ => false,
        },
{
    match pending {
        Some(marker) => Some((marker, at)),
        None => if at < end && payload[at] <= 0x11 {
            Some((payload[at], at + 1))
        } else {
            None
        },
    }
}

fn skip_short_string(payload: &[u8], end: usize, at: usize) -> (r: Option<usize>)
    requires
        at <= end <= payload@.len(),
    ensures
        match (r, short_string_end(payload@, end as int, at as int)) {
            (Some(e), Some(se)) => e == se && at + 2 <= e <= end,
            (None, None) => true,
            _ => false,
        },
{
    if end - at < 2 {
        return None;
    }
    let n: usize = read_u16(payload, at);
    if n > end - at - 2 {
        return None;
    }
    Some(at + 2 + n)
}

fn skip_long_string(payload: &[u8], end: usize, at: usize) -> (r: Option<usize>)
    requires
        at <= end <= payload@.len(),
    ensures
        match (r, long_string_end(payload@, end as int, at as int)) {
            (Some(e), Some(se)) => e == se && at + 4 <= e <= end,
            (None, None) => true,
            _ => false,
        },
{
    if end - at < 4 {
        return None;
    }
    let n: u32 = read_u32(payload, at);
    if n as usize > end - at - 4 {
        return None;
    }
    Some(at + 4 + n as usize)
}

/// Follows the value that starts at `at`, or with the marker held.
pub fn walk_value(payload: &[u8], end: usize, at: usize, pending: Option<u8>, room: usize) -> (walk:
    Walk)
    ensures
        walk@ == value_end(payload@, end as int, at as int, pending, room as nat),
        walk matches Walk::End { at: e, pending: q } ==> at <= e <= end && (e > at || held(q)
            <= held(pending)),
    decreases room,
{
    if at > end || end > payload.len() {
        return Walk::Cut;
    }
    let (marker, a) = match take_marker(payload, end, at, pending) {
        Some(found) => found,
        None => { return Walk::Cut; },
    };
    if marker == 0 {
        return if end - a >= 8 {
            Walk::End { at: a + 8, pending: None }
        } else {
            Walk::Cut
        };
    }
    if marker == 0x0b {
        return if end - a >= 10 {
            Walk::End { at: a + 10, pending: None }
        } else {
            Walk::Cut
        };
    }
    if marker == 1 {
        return if end - a >= 1 {
            Walk::End { at: a + 1, pending: None }
        } else {
            Walk::Cut
        };
    }
    if marker == 2 {
        return match skip_short_string(payload, end, a) {
            Some(e) => Walk::End { at: e, pending: None },
            None => Walk::Cut,
        };
    }
    if marker == 0x0c || marker == 0x0f {
        return match skip_long_string(payload, end, a) {
            Some(e) => Walk::End { at: e, pending: None },
            None => Walk::Cut,
        };
    }
    if marker == 5 || marker == 6 {
        return Walk::End { at: a, pending: None };
    }
    if !(marker == 3 || marker == 0x10 || marker == 8 || marker == 0x0a) {
        return Walk::Cut;
    }
    if room == 0 {
        return Walk::TooDeep;
    }
    let kind: Members;
    let count: u32;
    let start: usize;
    if marker == 3 {
        kind = Members::Object;
        count = 0;
        start = a;
    } else if marker == 0x10 {
        kind = Members::Object;
        count = 0;
        start = match skip_short_string(payload, end, a) {
            Some(n) => n,
            None => { return Walk::Cut; },
        };
    } else {
        if end - a < 4 {
            return Walk::Cut;
        }
        kind = if marker == 8 {
            Members::Keyed
        } else {
            Members::Plain
        };
        count = read_u32(payload, a);
        start = a + 4;
    }
    let ghost goal = value_end(payload@, end as int, at as int, pending, room as nat);
    let mut cur: usize = start;
    let mut pend: Option<u8> = None;
    let mut left: u32 = count;
    loop
        invariant
            room >= 1,
            at <= cur <= end <= payload@.len(),
            cur > at || held(pend) <= held(pending),
            goal == value_end(payload@, end as int, at as int, pending, room as nat),
            members_end(
                payload@,
                end as int,
                cur as int,
                pend,
                kind,
                left as nat,
                (room - 1) as nat,
            ) == goal,
        decreases end - cur, held(pend),
    {
        let value: Walk;
        match kind {
            Members::Object => {
                let k: usize = match skip_short_string(payload, end, cur) {
                    Some(k) => k,
                    None => { return Walk::Cut; },
                };
                if k == cur + 2 {
                    let (m, b) = match take_marker(payload, end, k, pend) {
                        Some(found) => found,
                        None => { return Walk::Cut; },
                    };
                    if m == 9 {
                        return Walk::End { at: b, pending: None };
                    }
                    value = walk_value(payload, end, b, Some(m), room - 1);
                } else {
                    value = walk_value(payload, end, k, pend, room - 1);
                }
            },
            Members::Keyed => {
                if left == 0 {
                    if pend.is_none() && cur >= end {
                        return Walk::End { at: cur, pending: None };
                    }
                    return match take_marker(payload, end, cur, pend) {
                        None => Walk::Cut,
                        Some((m, b)) => Walk::End {
                            at: b,
                            pending: if m == 9 {
                                None
                            } else {
                                Some(m)
                            },
                        },
                    };
                }
                let k: usize = match skip_short_string(payload, end, cur) {
                    Some(k) => k,
                    None => { return Walk::Cut; },
                };
                value = walk_value(payload, end, k, pend, room - 1);
                left = left - 1;
            },
            Members::Plain => {
                if left == 0 {
                    return Walk::End { at: cur, pending: pend };
                }
                value = walk_value(payload, end, cur, pend, room - 1);
                left = left - 1;
            },
        }
        match value {
            Walk::End { at: v, pending: q } => {
                let forward: bool = v > cur || (v == cur && q.is_none() && pend.is_some());
                if !forward {
                    return Walk::TooDeep;
                }
                cur = v;
                pend = q;
            },
            Walk::Cut => { return Walk::Cut; },
            Walk::TooDeep => { return Walk::TooDeep; },
        }
    }
}

/// Whether the metadata that the bytes of `payload` from `from` up to `to`
/// hold nests too deep.
pub fn nests_too_deep(payload: &[u8], from: usize, to: usize) -> (deep: bool)
    ensures
        deep == metadata_nests_too_deep(payload@, from as int, to as int),
{
    if from > to || to > payload.len() {
        return false;
    }
    let mut cur: usize = from;
    let mut pend: Option<u8> = None;
    loop
        invariant
            from <= cur <= to <= payload@.len(),
            entries_nest_too_deep(payload@, to as int, cur as int, pend)
                == metadata_nests_too_deep(payload@, from as int, to as int),
        decreases to - cur,
    {
        let (marker, a) = match take_marker(payload, to, cur, pend) {
            Some(found) => found,
            None => { return false; },
        };
        let key: Option<usize> = if marker == 2 {
            skip_short_string(payload, to, a)
        } else if marker == 0x0c || marker == 0x0f {
            skip_long_string(payload, to, a)
        } else {
            None
        };
        let k: usize = match key {
            Some(k) => k,
            None => { return false; },
        };
        match walk_value(payload, to, k, None, NESTING_LIMIT) {
            Walk::TooDeep => { return true; },
            Walk::Cut => { return false; },
            Walk::End { at: v, pending: q } => {
                if v <= cur {
                    return true;
                }
                cur = v;
                pend = q;
            },
        }
    }
}

} // verus!

//! Exponential-Golomb codes in the data of a parameter-set extension, and
//! whether the decoder's arithmetic overflows on them.
//!
//! The decoder reads such data bit by bit, high bit first. A code is a run of
//! zero bits, a one bit, and as many more bits as the run was long. The
//! decoder starts from one, shifts each of the further bits in from the
//! right within 64 bits, and takes one off: where all 64 bits are zero at the
//! end, that subtraction underflows. A signed code is the same with the
//! lowest bit for the sign. In a scaling list the decoder adds each signed
//! code to a running value and 256, within 64 bits again, and that sum can
//! overflow as well.

use vstd::prelude::*;

verus! {

/// How reading a code ended.
#[derive(Clone, Copy, Debug, PartialEq, Eq)]
pub enum Code {
    /// The bits end within the code: the decoder stops with an error.
    Cut,
    /// The decoder's subtraction underflows.
    Overflow,
    /// The code has this value, and the next bit is bit `bit` of byte `byte`.
    Value { byte: usize, bit: u8, value: u64 },
}

/// The mathematical value of a [`Code`].
pub enum CodeModel {
    Cut,
    Overflow,
    Value { byte: int, bit: u8, value: u64 },
}

impl View for Code {
    type V = CodeModel;

    open spec fn view(&self) -> CodeModel {
        match self {
            Code::Cut => CodeModel::Cut,
            Code::Overflow => CodeModel::Overflow,
            Code::Value { byte, bit, value } => CodeModel::Value {
                byte: *byte as int,
                bit: *bit,
                value: *value,
            },
        }
    }
}

/// How reading the data of a parameter-set extension ended.
#[derive(Clone, Copy, Debug, PartialEq, Eq)]
pub enum Reading {
    /// The decoder read the extension.
    Passed,
    /// The decoder stopped with an error.
    Failed,
    /// The decoder's arithmetic overflows.
    Overflow,
}

/// How reading a scaling list ended.
#[derive(Clone, Copy, Debug, PartialEq, Eq)]
pub enum List {
    /// The bits end within the list.
    Cut,
    /// The decoder's arithmetic overflows.
    Overflow,
    /// The list ends, and the next bit is bit `bit` of byte `byte`.
    End { byte: usize, bit: u8 },
}

impl View for List {
    type V = ListModel;

    open spec fn view(&self) -> ListModel {
        match self {
            List::Cut => ListModel::Cut,
            List::Overflow => ListModel::Overflow,
            List::End { byte, bit } => ListModel::End { byte: *byte as int, bit: *bit },
        }
    }
}

/// The mathematical value of a [`List`].
pub enum ListModel {
    Cut,
    Overflow,
    End { byte: int, bit: u8 },
}

/// Bit `bit` of `byte`, counted from the high bit, as a number.
pub open spec fn bit_of(byte: u8, bit: u8) -> u64 {
    ((byte >> (7 - bit) as u8) & 1) as u64
}

/// The byte of the bit after bit `bit` of byte `byte`.
pub open spec fn byte_after(byte: int, bit: u8) -> int {
    if bit >= 7 {
        byte + 1
    } else {
        byte
    }
}

/// The bit after bit `bit`, within its byte.
pub open spec fn bit_after(bit: u8) -> u8 {
    if bit >= 7 {
        0
    } else {
        (bit + 1) as u8
    }
}

/// Reads zero bits up to a one bit: the position after the one bit and the
/// number of zero bits, `zeros` counted in, or `None` where the bits end
/// first.
pub open spec fn zeros_end(payload: Seq<u8>, end: int, byte: int, bit: u8, zeros: nat) -> Option<
    (int, u8, nat),
>
    decreases end - byte, 8 - bit,
{
    if byte < 0 || byte >= end || bit >= 8 {
        None
    } else if bit_of(payload[byte], bit) == 1 {
        Some((byte_after(byte, bit), bit_after(bit), zeros))
    } else {
        zeros_end(payload, end, byte_after(byte, bit), bit_after(bit), zeros + 1)
    }
}

/// Shifts `left` more bits into `value` from the right, within 64 bits.
pub open spec fn bits_end(
    payload: Seq<u8>,
    end: int,
    byte: int,
    bit: u8,
    left: nat,
    value: u64,
) -> Option<(int, u8, u64)>
    decreases left,
{
    if left == 0 {
        Some((byte, bit, value))
    } else if byte < 0 || byte >= end || bit >= 8 {
        None
    } else {
        bits_end(
            payload,
            end,
            byte_after(byte, bit),
            bit_after(bit),
            (left - 1) as nat,
            (value << 1) | bit_of(payload[byte], bit),
        )
    }
}

/// Reads the code that starts at bit `bit` of byte `byte`.
pub open spec fn code_end(payload: Seq<u8>, end: int, byte: int, bit: u8) -> CodeModel {
    match zeros_end(payload, end, byte, bit, 0) {
        None => CodeModel::Cut,
        Some((b, t, zeros)) => match bits_end(payload, end, b, t, zeros, 1) {
            None => CodeModel::Cut,
            Some((b2, t2, value)) => if value == 0 {
                CodeModel::Overflow
            } else {
                CodeModel::Value { byte: b2, bit: t2, value: (value - 1) as u64 }
            },
        },
    }
}

/// The number that a signed code of this value stands for.
pub open spec fn signed(value: u64) -> int {
    if value % 2 == 0 {
        -(value / 2)
    } else {
        value / 2 + 1
    }
}

/// Whether a sum fits 64 bits with a sign.
pub open spec fn fits(sum: int) -> bool {
    -0x8000_0000_0000_0000 <= sum <= 0x7fff_ffff_ffff_ffff
}

/// The remainder by 256 with the sign of the number divided.
pub open spec fn remainder(sum: int) -> int {
    if sum >= 0 {
        sum % 256
    } else {
        -((-sum) % 256)
    }
}

/// Reads a scaling list of up to `left` more signed codes. `scale` is the
/// running value, which each code changes to the remainder of the sum of
/// itself, the code and 256; the list ends where it comes to zero.
pub open spec fn list_end(
    payload: Seq<u8>,
    end: int,
    byte: int,
    bit: u8,
    left: nat,
    scale: int,
) -> ListModel
    decreases left,
{
    if left == 0 {
        ListModel::End { byte, bit }
    } else {
        match code_end(payload, end, byte, bit) {
            CodeModel::Cut => ListModel::Cut,
            CodeModel::Overflow => ListModel::Overflow,
            CodeModel::Value { byte: b, bit: t, value } => {
                if !fits(scale + signed(value)) || !fits(scale + signed(value) + 256) {
                    ListModel::Overflow
                } else if remainder(scale + signed(value) + 256) == 0 {
                    ListModel::End { byte: b, bit: t }
                } else {
                    list_end(
                        payload,
                        end,
                        b,
                        t,
                        (left - 1) as nat,
                        remainder(scale + signed(value) + 256),
                    )
                }
            },
        }
    }
}

/// Reads the scaling lists from number `index` on, `count` in all: each one
/// bit that says whether the list is there, and the list, of 16 codes for the
/// first six and of 64 for the others.
pub open spec fn lists_end(
    payload: Seq<u8>,
    end: int,
    byte: int,
    bit: u8,
    index: nat,
    count: nat,
) -> Reading
    decreases count - index,
{
    if index >= count {
        Reading::Passed
    } else if byte < 0 || byte >= end || bit >= 8 {
        Reading::Failed
    } else if bit_of(payload[byte], bit) == 0 {
        lists_end(payload, end, byte_after(byte, bit), bit_after(bit), index + 1, count)
    } else {
        match list_end(
            payload,
            end,
            byte_after(byte, bit),
            bit_after(bit),
            if index < 6 {
                16
            } else {
                64
            },
            8,
        ) {
            ListModel::Cut => Reading::Failed,
            ListModel::Overflow => Reading::Overflow,
            ListModel::End { byte: b, bit: t } => lists_end(payload, end, b, t, index + 1, count),
        }
    }
}

/// What follows the three codes at the head of an extension: two bits, and
/// where the second is set the scaling lists, 12 for the chroma format 3 and
/// 8 for any other.
pub open spec fn flags_end(payload: Seq<u8>, end: int, byte: int, bit: u8, chroma: u64) -> Reading {
    if byte < 0 || byte >= end || bit >= 8 || byte_after(byte, bit) >= end {
        Reading::Failed
    } else if bit_of(payload[byte_after(byte, bit)], bit_after(bit)) == 0 {
        Reading::Passed
    } else {
        lists_end(
            payload,
            end,
            byte_after(byte_after(byte, bit), bit_after(bit)),
            bit_after(bit_after(bit)),
            0,
            if chroma != 3 {
                8
            } else {
                12
            },
        )
    }
}

/// Reads the two bit depths, each a code of at most 6, and what follows them.
pub open spec fn depths_end(payload: Seq<u8>, end: int, byte: int, bit: u8, chroma: u64) -> Reading {
    match code_end(payload, end, byte, bit) {
        CodeModel::Cut => Reading::Failed,
        CodeModel::Overflow => Reading::Overflow,
        CodeModel::Value { byte: b, bit: t, value: luma } => if luma > 6 {
            Reading::Failed
        } else {
            match code_end(payload, end, b, t) {
                CodeModel::Cut => Reading::Failed,
                CodeModel::Overflow => Reading::Overflow,
                CodeModel::Value { byte: b2, bit: t2, value: depth } => if depth > 6 {
                    Reading::Failed
                } else {
                    flags_end(payload, end, b2, t2, chroma)
                },
            }
        },
    }
}

/// Reads the data of a parameter-set extension, the bytes of `payload` from
/// `from` up to `to`: the chroma format, a code of at most 3; one bit more
/// where it is 3; and the rest.
pub open spec fn extension_end(payload: Seq<u8>, from: int, to: int) -> Reading {
    if from < 0 || to > payload.len() || to - from > 0xffff {
        Reading::Failed
    } else {
        match code_end(payload, to, from, 0) {
            CodeModel::Cut => Reading::Failed,
            CodeModel::Overflow => Reading::Overflow,
            CodeModel::Value { byte, bit, value: chroma } => if chroma > 3 {
                Reading::Failed
            } else if chroma != 3 {
                depths_end(payload, to, byte, bit, chroma)
            } else if byte >= to {
                Reading::Failed
            } else {
                depths_end(payload, to, byte_after(byte, bit), bit_after(bit), chroma)
            },
        }
    }
}

fn read_bit(payload: &[u8], byte: usize, bit: u8) -> (r: (u64, usize, u8))
    requires
        byte < payload@.len(),
        bit < 8,
    ensures
        r.0 == bit_of(payload@[byte as int], bit),
        r.0 == 0 || r.0 == 1,
        r.1 == byte_after(byte as int, bit),
        r.2 == bit_after(bit),
        r.2 < 8,
        r.1 == byte || (r.1 == byte + 1 && r.2 == 0),
{
    let whole: u8 = payload[byte];
    let shift: u8 = 7 - bit;
    let value: u8 = (whole >> shift) & 1;
    assert((whole >> shift) & 1 == 0 || (whole >> shift) & 1 == 1) by (bit_vector);
    if bit >= 7 {
        (value as u64, byte + 1, 0)
    } else {
        (value as u64, byte, bit + 1)
    }
}

/// Reads the code that starts at bit `bit` of byte `byte`.
fn read_code(payload: &[u8], end: usize, byte: usize, bit: u8) -> (code: Code)
    requires
        byte <= end <= payload@.len(),
        end - byte <= 0x1_0000,
    ensures
        code@ == code_end(payload@, end as int, byte as int, bit),
        code matches Code::Value { byte: b, bit: t, value } ==> byte <= b <= end && t < 8 && value
            < u64::MAX,
{
    let mut at: usize = byte;
    let mut within: u8 = bit;
    let mut zeros: usize = 0;
    loop
        invariant_except_break
            zeros_end(payload@, end as int, at as int, within, zeros as nat) == zeros_end(
                payload@,
                end as int,
                byte as int,
                bit,
                0,
            ),
            zeros + bit == (at - byte) * 8 + within,
        invariant
            byte <= at <= end <= payload@.len(),
            end - byte <= 0x1_0000,
        ensures
            within < 8,
            zeros_end(payload@, end as int, byte as int, bit, 0) == Some(
                (at as int, within, zeros as nat),
            ),
        decreases end - at, 8 - within,
    {
        if at >= end || within >= 8 {
            return Code::Cut;
        }
        let (value, next, next_within) = read_bit(payload, at, within);
        if value == 1 {
            at = next;
            within = next_within;
            break ;
        }
        at = next;
        within = next_within;
        zeros = zeros + 1;
    }
    let ghost run = zeros;
    let ghost from = at;
    let ghost from_within = within;
    let mut value: u64 = 1;
    while zeros > 0
        invariant
            at <= end <= payload@.len(),
            byte <= at,
            within < 8,
            bits_end(payload@, end as int, at as int, within, zeros as nat, value) == bits_end(
                payload@,
                end as int,
                from as int,
                from_within,
                run as nat,
                1,
            ),
            zeros_end(payload@, end as int, byte as int, bit, 0) == Some(
                (from as int, from_within, run as nat),
            ),
        decreases zeros,
    {
        if at >= end {
            return Code::Cut;
        }
        let (more, next, next_within) = read_bit(payload, at, within);
        value = (value << 1) | more;
        at = next;
        within = next_within;
        zeros = zeros - 1;
    }
    if value == 0 {
        Code::Overflow
    } else {
        Code::Value { byte: at, bit: within, value: value - 1 }
    }
}

/// Reads a scaling list of up to `count` signed codes.
fn read_list(payload: &[u8], end: usize, byte: usize, bit: u8, count: usize) -> (list: List)
    requires
        byte <= end <= payload@.len(),
        end - byte <= 0x1_0000,
        bit < 8,
    ensures
        list@ == list_end(payload@, end as int, byte as int, bit, count as nat, 8),
        list matches List::End { byte: b, bit: t } ==> byte <= b <= end && t < 8,
{
    let mut at: usize = byte;
    let mut within: u8 = bit;
    let mut left: usize = count;
    let mut scale: i64 = 8;
    while left > 0
        invariant
            byte <= at <= end <= payload@.len(),
            end - byte <= 0x1_0000,
            within < 8,
            -256 < scale < 256,
            list_end(payload@, end as int, at as int, within, left as nat, scale as int)
                == list_end(payload@, end as int, byte as int, bit, count as nat, 8),
        decreases left,
    {
        match read_code(payload, end, at, within) {
            Code::Cut => { return List::Cut; },
            Code::Overflow => { return List::Overflow; },
            Code::Value { byte: b, bit: t, value } => {
                let half: i64 = (value / 2) as i64;
                let delta: i64 = if value % 2 == 0 {
                    -half
                } else {
                    half + 1
                };
                let sum: i128 = scale as i128 + delta as i128;
                if sum < -0x8000_0000_0000_0000 || sum > 0x7fff_ffff_ffff_ffff - 256 {
                    return List::Overflow;
                }
                let more: i128 = sum + 256;
                let rest: i64 = if more >= 0 {
                    (more % 256) as i64
                } else {
                    -(((-more) % 256) as i64)
                };
                if rest == 0 {
                    return List::End { byte: b, bit: t };
                }
                scale = rest;
                at = b;
                within = t;
                left = left - 1;
            },
        }
    }
    List::End { byte: at, bit: within }
}

/// Reads `count` scaling lists.
fn read_lists(payload: &[u8], end: usize, byte: usize, bit: u8, count: usize) -> (reading: Reading)
    requires
        byte <= end <= payload@.len(),
        end - byte <= 0x1_0000,
        bit < 8,
    ensures
        reading == lists_end(payload@, end as int, byte as int, bit, 0, count as nat),
{
    let mut at: usize = byte;
    let mut within: u8 = bit;
    let mut index: usize = 0;
    while index < count
        invariant
            byte <= at <= end <= payload@.len(),
            end - byte <= 0x1_0000,
            within < 8,
            index <= count,
            lists_end(payload@, end as int, at as int, within, index as nat, count as nat)
                == lists_end(payload@, end as int, byte as int, bit, 0, count as nat),
        decreases count - index,
    {
        if at >= end {
            return Reading::Failed;
        }
        let (there, next, next_within) = read_bit(payload, at, within);
        if there == 0 {
            at = next;
            within = next_within;
        } else {
            let size: usize = if index < 6 {
                16
            } else {
                64
            };
            match read_list(payload, end, next, next_within, size) {
                List::Cut => { return Reading::Failed; },
                List::Overflow => { return Reading::Overflow; },
                List::End { byte: b, bit: t } => {
                    at = b;
                    within = t;
                },
            }
        }
        index = index + 1;
    }
    Reading::Passed
}

/// Reads what follows the three codes at the head of an extension.
fn read_flags(payload: &[u8], end: usize, byte: usize, bit: u8, chroma: u64) -> (reading: Reading)
    requires
        byte <= end <= payload@.len(),
        end - byte <= 0x1_0000,
        bit < 8,
    ensures
        reading == flags_end(payload@, end as int, byte as int, bit, chroma),
{
    if byte >= end {
        return Reading::Failed;
    }
    let (_, second, second_within) = read_bit(payload, byte, bit);
    if second >= end {
        return Reading::Failed;
    }
    let (present, next, next_within) = read_bit(payload, second, second_within);
    if present == 0 {
        Reading::Passed
    } else {
        read_lists(payload, end, next, next_within, if chroma != 3 {
            8
        } else {
            12
        })
    }
}

/// Reads the two bit depths and what follows them.
fn read_depths(payload: &[u8], end: usize, byte: usize, bit: u8, chroma: u64) -> (reading: Reading)
    requires
        byte <= end <= payload@.len(),
        end - byte <= 0x1_0000,
        bit < 8,
    ensures
        reading == depths_end(payload@, end as int, byte as int, bit, chroma),
{
    match read_code(payload, end, byte, bit) {
        Code::Cut => Reading::Failed,
        Code::Overflow => Reading::Overflow,
        Code::Value { byte: b, bit: t, value: luma } => if luma > 6 {
            Reading::Failed
        } else {
            match read_code(payload, end, b, t) {
                Code::Cut => Reading::Failed,
                Code::Overflow => Reading::Overflow,
                Code::Value { byte: b2, bit: t2, value: depth } => if depth > 6 {
                    Reading::Failed
                } else {
                    read_flags(payload, end, b2, t2, chroma)
                },
            }
        },
    }
}

/// Reads the data of a parameter-set extension, the bytes of `payload` from
/// `from` up to `to`, as the decoder does, and says how that ends.
pub fn read_extension(payload: &[u8], from: usize, to: usize) -> (reading: Reading)
    ensures
        reading == extension_end(payload@, from as int, to as int),
{
    if to > payload.len() || from > to || to - from > 0xffff {
        return Reading::Failed;
    }
    match read_code(payload, to, from, 0) {
        Code::Cut => Reading::Failed,
        Code::Overflow => Reading::Overflow,
        Code::Value { byte, bit, value: chroma } => if chroma > 3 {
            Reading::Failed
        } else if chroma != 3 {
            read_depths(payload, to, byte, bit, chroma)
        } else if byte >= to {
            Reading::Failed
        } else {
            let (_, next, next_within) = read_bit(payload, byte, bit);
            read_depths(payload, to, next, next_within, chroma)
        },
    }
}

} // verus!

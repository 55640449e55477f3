//! The primitives of the binary encoding of change records.
//!
//! A record is a sequence of fields. Each field starts with a key, a
//! variable-length integer that holds the field number and, in its three low
//! bits, the wire type, which tells how the value that follows is laid out:
//!
//! | wire type | value                                              |
//! |-----------|----------------------------------------------------|
//! | 0         | variable-length integer                            |
//! | 1         | eight bytes, little-endian                         |
//! | 2         | variable-length integer `n`, then `n` bytes        |
//! | 5         | four bytes, little-endian                          |
//!
//! A variable-length integer holds seven bits in each byte, least significant
//! group first; the high bit of a byte says that another byte follows. It
//! takes at most ten bytes, and its value fits in 64 bits.
//!
//! All functions here read inside a window `pos..end` of a buffer and never
//! look at a byte outside it.
use vstd::prelude::*;

verus! {

/// Wire type of a variable-length integer.
pub const WIRE_VARINT: u8 = 0;

/// Wire type of an eight-byte value.
pub const WIRE_FIXED64: u8 = 1;

/// Wire type of a length-delimited value.
pub const WIRE_LEN: u8 = 2;

/// Wire type of a four-byte value.
pub const WIRE_FIXED32: u8 = 5;

/// 128 to the power `i`: the weight of the `i`-th group of seven bits.
pub open spec fn pow128(i: nat) -> nat
    decreases i,
{
    if i == 0 {
        1
    } else {
        128 * pow128((i - 1) as nat)
    }
}

/// The variable-length integer at `pos`, of which `i` bytes worth `acc` have
/// been read, with the position after it; `None` where the window ends first,
/// a tenth byte announces an eleventh, or the value exceeds 64 bits.
pub open spec fn varint_scan(s: Seq<u8>, pos: int, end: int, i: nat, acc: nat) -> Option<(u64, int)>
    decreases 10 - i,
{
    if i >= 10 || pos + i >= end {
        None
    } else {
        let b = s[pos + i] as nat;
        let acc2 = acc + (b % 128) * pow128(i);
        if b < 128 {
            if i == 9 && b >= 2 {
                None
            } else {
                Some((acc2 as u64, pos + i + 1))
            }
        } else {
            varint_scan(s, pos, end, i + 1, acc2)
        }
    }
}

/// The variable-length integer that starts at `pos`, and the position after it.
pub open spec fn spec_varint(s: Seq<u8>, pos: int, end: int) -> Option<(u64, int)> {
    varint_scan(s, pos, end, 0, 0)
}

/// The wire types that this encoding uses.
pub open spec fn wire_type_known(wire_type: u8) -> bool {
    wire_type == WIRE_VARINT || wire_type == WIRE_FIXED64 || wire_type == WIRE_LEN || wire_type
        == WIRE_FIXED32
}

/// The key at `pos`: field number, wire type, and the position after the key.
/// The field number is at least 1 and the key fits in 32 bits.
pub open spec fn spec_key(s: Seq<u8>, pos: int, end: int) -> Option<(u32, u8, int)> {
    match spec_varint(s, pos, end) {
        None => None,
        Some((v, next)) => {
            if v > u32::MAX || v / 8 == 0 || !wire_type_known((v % 8) as u8) {
                None
            } else {
                Some(((v / 8) as u32, (v % 8) as u8, next))
            }
        },
    }
}

/// The bounds of the length-delimited value at `pos`: where its bytes start
/// and where they stop. `None` where the length is broken or runs past `end`.
pub open spec fn spec_len_delimited(s: Seq<u8>, pos: int, end: int) -> Option<(int, int)> {
    match spec_varint(s, pos, end) {
        None => None,
        Some((len, start)) => {
            if len > end - start {
                None
            } else {
                Some((start, start + len))
            }
        },
    }
}

/// The unsigned integer that the four bytes at `at` spell in little-endian order.
pub open spec fn le_u32(s: Seq<u8>, at: int) -> u32 {
    (s[at] as int + s[at + 1] as int * 0x100 + s[at + 2] as int * 0x1_0000 + s[at + 3] as int
        * 0x100_0000) as u32
}

/// The unsigned integer that the eight bytes at `at` spell in little-endian order.
pub open spec fn le_u64(s: Seq<u8>, at: int) -> u64 {
    (s[at] as int + s[at + 1] as int * 0x100 + s[at + 2] as int * 0x1_0000 + s[at + 3] as int
        * 0x100_0000 + s[at + 4] as int * 0x1_0000_0000 + s[at + 5] as int * 0x100_0000_0000 + s[at
        + 6] as int * 0x1_0000_0000_0000 + s[at + 7] as int * 0x100_0000_0000_0000) as u64
}

/// The four-byte value at `pos` and the position after it.
pub open spec fn spec_fixed32(s: Seq<u8>, pos: int, end: int) -> Option<(u32, int)> {
    if end - pos < 4 {
        None
    } else {
        Some((le_u32(s, pos), pos + 4))
    }
}

/// The eight-byte value at `pos` and the position after it.
pub open spec fn spec_fixed64(s: Seq<u8>, pos: int, end: int) -> Option<(u64, int)> {
    if end - pos < 8 {
        None
    } else {
        Some((le_u64(s, pos), pos + 8))
    }
}

/// The position after the value of wire type `wire_type` that starts at `pos`.
pub open spec fn spec_skip(s: Seq<u8>, pos: int, end: int, wire_type: u8) -> Option<int> {
    if wire_type == WIRE_VARINT {
        match spec_varint(s, pos, end) {
            None => None,
            Some((_, next)) => Some(next),
        }
    } else if wire_type == WIRE_FIXED64 {
        if end - pos < 8 {
            None
        } else {
            Some(pos + 8)
        }
    } else if wire_type == WIRE_LEN {
        match spec_len_delimited(s, pos, end) {
            None => None,
            Some((_, stop)) => Some(stop),
        }
    } else if wire_type == WIRE_FIXED32 {
        if end - pos < 4 {
            None
        } else {
            Some(pos + 4)
        }
    } else {
        None
    }
}

/// The weights of the ten groups of a variable-length integer.
proof fn lemma_pow128_values()
    ensures
        pow128(0) == 1,
        pow128(1) == 0x80,
        pow128(2) == 0x4000,
        pow128(3) == 0x20_0000,
        pow128(4) == 0x1000_0000,
        pow128(5) == 0x8_0000_0000,
        pow128(6) == 0x400_0000_0000,
        pow128(7) == 0x2_0000_0000_0000,
        pow128(8) == 0x100_0000_0000_0000,
        pow128(9) == 0x8000_0000_0000_0000,
{
    reveal_with_fuel(pow128, 11);
}

/// A group of seven bits, weighted, stays below the next weight.
proof fn lemma_group_bound(acc: nat, group: nat, i: nat)
    requires
        acc < pow128(i),
        group < 128,
    ensures
        acc + group * pow128(i) < pow128(i + 1),
{
    assert(group * pow128(i) <= 127 * pow128(i)) by (nonlinear_arith)
        requires
            group <= 127,
    ;
    assert(pow128(i + 1) == 128 * pow128(i));
}

/// Reads the variable-length integer that starts at `pos`.
pub fn read_varint(bytes: &[u8], pos: usize, end: usize) -> (r: Option<(u64, usize)>)
    requires
        pos <= end <= bytes@.len(),
    ensures
        match r {
            Some((v, next)) => spec_varint(bytes@, pos as int, end as int) == Some((v, next as int))
                && pos < next <= end,
            None => spec_varint(bytes@, pos as int, end as int) is None,
        },
{
    let mut i: usize = 0;
    let mut acc: u64 = 0;
    let mut weight: u64 = 1;
    proof {
        lemma_pow128_values();
    }
    while i < 10 && i < end - pos
        invariant
            pos <= end <= bytes@.len(),
            i <= 10,
            i <= end - pos,
            i <= 9 ==> weight == pow128(i as nat),
            acc < pow128(i as nat),
            i <= 9 ==> pow128(i as nat) <= 0x8000_0000_0000_0000,
            spec_varint(bytes@, pos as int, end as int) == varint_scan(
                bytes@,
                pos as int,
                end as int,
                i as nat,
                acc as nat,
            ),
        decreases 10 - i,
    {
        let b = bytes[pos + i];
        proof {
            lemma_pow128_values();
            lemma_group_bound(acc as nat, (b % 128) as nat, i as nat);
        }
        if b < 128 {
            if i == 9 && b >= 2 {
                return None;
            }
            assert((b as nat) * pow128(i as nat) == (b % 128) as nat * pow128(i as nat));
            assert(i == 9 ==> (b as nat) * pow128(i as nat) <= 0x8000_0000_0000_0000)
                by (nonlinear_arith)
                requires
                    i == 9 ==> b <= 1 && pow128(i as nat) == 0x8000_0000_0000_0000,
            ;
            let v = acc + (b as u64) * weight;
            return Some((v, pos + i + 1));
        }
        assert((b - 128) as nat == (b % 128) as nat);
        if i == 9 {
            assert(varint_scan(bytes@, pos as int, end as int, 10, (acc + (b % 128) * pow128(9)) as nat) is None);
            return None;
        }
        acc = acc + ((b - 128) as u64) * weight;
        i = i + 1;
        if i <= 9 {
            weight = weight * 128;
        }
    }
    None
}

/// Reads the key that starts at `pos`.
pub fn read_key(bytes: &[u8], pos: usize, end: usize) -> (r: Option<(u32, u8, usize)>)
    requires
        pos <= end <= bytes@.len(),
    ensures
        match r {
            Some((field, wire_type, next)) => spec_key(bytes@, pos as int, end as int) == Some(
                (field, wire_type, next as int),
            ) && pos < next <= end && field >= 1 && wire_type_known(wire_type),
            None => spec_key(bytes@, pos as int, end as int) is None,
        },
{
    match read_varint(bytes, pos, end) {
        None => None,
        Some((v, next)) => {
            if v > 0xffff_ffff {
                return None;
            }
            let field: u32 = (v / 8) as u32;
            let wire_type: u8 = (v % 8) as u8;
            if field == 0 {
                return None;
            }
            if wire_type == WIRE_VARINT || wire_type == WIRE_FIXED64 || wire_type == WIRE_LEN
                || wire_type == WIRE_FIXED32 {
                Some((field, wire_type, next))
            } else {
                None
            }
        },
    }
}

/// Reads the bounds of the length-delimited value that starts at `pos`.
pub fn read_len_delimited(bytes: &[u8], pos: usize, end: usize) -> (r: Option<(usize, usize)>)
    requires
        pos <= end <= bytes@.len(),
    ensures
        match r {
            Some((start, stop)) => spec_len_delimited(bytes@, pos as int, end as int) == Some(
                (start as int, stop as int),
            ) && pos < start <= stop <= end,
            None => spec_len_delimited(bytes@, pos as int, end as int) is None,
        },
{
    match read_varint(bytes, pos, end) {
        None => None,
        Some((len, start)) => {
            if len > (end - start) as u64 {
                None
            } else {
                Some((start, start + len as usize))
            }
        },
    }
}

/// Reads the four-byte value that starts at `pos`.
pub fn read_fixed32(bytes: &[u8], pos: usize, end: usize) -> (r: Option<(u32, usize)>)
    requires
        pos <= end <= bytes@.len(),
    ensures
        match r {
            Some((v, next)) => spec_fixed32(bytes@, pos as int, end as int) == Some((v, next as int))
                && pos < next <= end,
            None => spec_fixed32(bytes@, pos as int, end as int) is None,
        },
{
    if end - pos < 4 {
        return None;
    }
    let b0: u32 = bytes[pos] as u32;
    let b1: u32 = bytes[pos + 1] as u32;
    let b2: u32 = bytes[pos + 2] as u32;
    let b3: u32 = bytes[pos + 3] as u32;
    Some((b0 + b1 * 0x100 + b2 * 0x1_0000 + b3 * 0x100_0000, pos + 4))
}

/// Reads the eight-byte value that starts at `pos`.
pub fn read_fixed64(bytes: &[u8], pos: usize, end: usize) -> (r: Option<(u64, usize)>)
    requires
        pos <= end <= bytes@.len(),
    ensures
        match r {
            Some((v, next)) => spec_fixed64(bytes@, pos as int, end as int) == Some((v, next as int))
                && pos < next <= end,
            None => spec_fixed64(bytes@, pos as int, end as int) is None,
        },
{
    if end - pos < 8 {
        return None;
    }
    let b0: u64 = bytes[pos] as u64;
    let b1: u64 = bytes[pos + 1] as u64;
    let b2: u64 = bytes[pos + 2] as u64;
    let b3: u64 = bytes[pos + 3] as u64;
    let b4: u64 = bytes[pos + 4] as u64;
    let b5: u64 = bytes[pos + 5] as u64;
    let b6: u64 = bytes[pos + 6] as u64;
    let b7: u64 = bytes[pos + 7] as u64;
    Some(
        (
            b0 + b1 * 0x100 + b2 * 0x1_0000 + b3 * 0x100_0000 + b4 * 0x1_0000_0000 + b5
                * 0x100_0000_0000 + b6 * 0x1_0000_0000_0000 + b7 * 0x100_0000_0000_0000,
            pos + 8,
        ),
    )
}

/// Steps over the value of wire type `wire_type` that starts at `pos`.
pub fn skip_value(bytes: &[u8], pos: usize, end: usize, wire_type: u8) -> (r: Option<usize>)
    requires
        pos <= end <= bytes@.len(),
    ensures
        match r {
            Some(next) => spec_skip(bytes@, pos as int, end as int, wire_type) == Some(next as int)
                && pos < next <= end,
            None => spec_skip(bytes@, pos as int, end as int, wire_type) is None,
        },
{
    if wire_type == WIRE_VARINT {
        match read_varint(bytes, pos, end) {
            None => None,
            Some((_, next)) => Some(next),
        }
    } else if wire_type == WIRE_FIXED64 {
        if end - pos < 8 {
            None
        } else {
            Some(pos + 8)
        }
    } else if wire_type == WIRE_LEN {
        match read_len_delimited(bytes, pos, end) {
            None => None,
            Some((_, stop)) => Some(stop),
        }
    } else if wire_type == WIRE_FIXED32 {
        if end - pos < 4 {
            None
        } else {
            Some(pos + 4)
        }
    } else {
        None
    }
}

} // verus!

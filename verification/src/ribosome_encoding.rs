//! The encoding of the sandbox boundary's single machine word.
//!
//! One 64-bit word carries one of three disjoint meanings across the
//! boundary: explicit success with no data, a failure code, or a byte-range
//! allocation (offset and length) in the shared linear memory.  The three
//! interpretations are never confusable for any offset, length or code.

use vstd::prelude::*;
use vstd::arithmetic::div_mod::lemma_fundamental_div_mod_converse;

verus! {

/// The failure codes a host function may hand back across the boundary.
#[derive(Clone, Copy, Debug, PartialEq, Eq, Structural)]
pub enum RibosomeErrorCode {
    Unspecified,
    ArgumentDeserializationFailed,
    OutOfMemory,
    NotAnAllocation,
    ZeroSizedAllocation,
}

/// The numeric form of a failure code; always non-zero, so a failure word
/// is never the success word.
pub open spec fn code_number(c: RibosomeErrorCode) -> u32 {
    match c {
        RibosomeErrorCode::Unspecified => 1,
        RibosomeErrorCode::ArgumentDeserializationFailed => 2,
        RibosomeErrorCode::OutOfMemory => 3,
        RibosomeErrorCode::NotAnAllocation => 4,
        RibosomeErrorCode::ZeroSizedAllocation => 5,
    }
}

/// The failure code behind a numeric form; unknown numbers fall back to
/// the unspecified code.
pub open spec fn code_of_number(n: u32) -> RibosomeErrorCode {
    if n == 2 {
        RibosomeErrorCode::ArgumentDeserializationFailed
    } else if n == 3 {
        RibosomeErrorCode::OutOfMemory
    } else if n == 4 {
        RibosomeErrorCode::NotAnAllocation
    } else if n == 5 {
        RibosomeErrorCode::ZeroSizedAllocation
    } else {
        RibosomeErrorCode::Unspecified
    }
}

/// A byte range inside the shared linear memory.
#[derive(Clone, Copy, Debug, PartialEq, Eq, Structural)]
pub struct WasmAllocation {
    pub offset: u32,
    pub length: u32,
}

/// The three disjoint meanings of the boundary word.
#[derive(Clone, Copy, Debug, PartialEq, Eq, Structural)]
pub enum RibosomeEncodedValue {
    /// Explicit success carrying no data.
    Success,
    /// A failure code.
    Failure(RibosomeErrorCode),
    /// Data at an allocation of the shared memory.
    Allocation(WasmAllocation),
}

/// A value the word encoding can represent faithfully: allocations must
/// not be empty (an empty allocation would collide with the other
/// interpretations).
pub open spec fn valid_encodable(v: RibosomeEncodedValue) -> bool {
    match v {
        RibosomeEncodedValue::Allocation(a) => a.length > 0,
        _ => true,
    }
}

/// The word for a value: success is zero; a failure code sits in the high
/// half with a zero low half; an allocation is offset in the high half and
/// (non-zero) length in the low half.
pub open spec fn encode_value(v: RibosomeEncodedValue) -> u64 {
    match v {
        RibosomeEncodedValue::Success => 0u64,
        RibosomeEncodedValue::Failure(c) => ((code_number(c) as u64) * 0x100000000) as u64,
        RibosomeEncodedValue::Allocation(a) => ((a.offset as u64) * 0x100000000 + (
        a.length as u64)) as u64,
    }
}

/// The value a word decodes to.
pub open spec fn decode_value(w: u64) -> RibosomeEncodedValue {
    let offset = (w / 0x100000000) as u32;
    let length = (w % 0x100000000) as u32;
    if w == 0 {
        RibosomeEncodedValue::Success
    } else if length == 0 {
        RibosomeEncodedValue::Failure(code_of_number(offset))
    } else {
        RibosomeEncodedValue::Allocation(WasmAllocation { offset, length })
    }
}

/// Encode a boundary value into its word.
pub fn encode(v: RibosomeEncodedValue) -> (w: u64)
    ensures
        w == encode_value(v),
{
    match v {
        RibosomeEncodedValue::Success => 0,
        RibosomeEncodedValue::Failure(c) => {
            let n: u32 = match c {
                RibosomeErrorCode::Unspecified => 1,
                RibosomeErrorCode::ArgumentDeserializationFailed => 2,
                RibosomeErrorCode::OutOfMemory => 3,
                RibosomeErrorCode::NotAnAllocation => 4,
                RibosomeErrorCode::ZeroSizedAllocation => 5,
            };
            (n as u64) * 0x100000000
        },
        RibosomeEncodedValue::Allocation(a) => (a.offset as u64) * 0x100000000 + (a.length as u64),
    }
}

/// Decode a word into its boundary value.
pub fn decode(w: u64) -> (v: RibosomeEncodedValue)
    ensures
        v == decode_value(w),
{
    let offset = (w / 0x100000000) as u32;
    let length = (w % 0x100000000) as u32;
    if w == 0 {
        RibosomeEncodedValue::Success
    } else if length == 0 {
        let code = if offset == 2 {
            RibosomeErrorCode::ArgumentDeserializationFailed
        } else if offset == 3 {
            RibosomeErrorCode::OutOfMemory
        } else if offset == 4 {
            RibosomeErrorCode::NotAnAllocation
        } else if offset == 5 {
            RibosomeErrorCode::ZeroSizedAllocation
        } else {
            RibosomeErrorCode::Unspecified
        };
        RibosomeEncodedValue::Failure(code)
    } else {
        RibosomeEncodedValue::Allocation(WasmAllocation { offset, length })
    }
}

/// Decoding inverts encoding: every representable value survives the
/// round trip through the boundary word unchanged.
pub proof fn law_encode_decode_round_trip(v: RibosomeEncodedValue)
    requires
        valid_encodable(v),
    ensures
        decode_value(encode_value(v)) == v,
{
    match v {
        RibosomeEncodedValue::Success => {},
        RibosomeEncodedValue::Failure(c) => {
            let n = code_number(c) as u64;
            let w = n * 0x100000000;
            lemma_fundamental_div_mod_converse(w as int, 0x100000000, n as int, 0);
            assert(w != 0);
        },
        RibosomeEncodedValue::Allocation(a) => {
            let w = (a.offset as u64) * 0x100000000 + (a.length as u64);
            lemma_fundamental_div_mod_converse(
                w as int,
                0x100000000,
                a.offset as int,
                a.length as int,
            );
            assert(w % 0x100000000 == a.length);
            assert(w != 0);
        },
    }
}

/// The three interpretations are never confusable: two representable
/// values with the same word are the same value, for any offset, length
/// and code.
pub proof fn law_encoding_unambiguous(a: RibosomeEncodedValue, b: RibosomeEncodedValue)
    requires
        valid_encodable(a),
        valid_encodable(b),
        encode_value(a) == encode_value(b),
    ensures
        a == b,
{
    law_encode_decode_round_trip(a);
    law_encode_decode_round_trip(b);
}

} // verus!

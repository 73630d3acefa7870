//! The memory boundary allocator.
//!
//! Manages the linear memory region shared with the sandboxed module:
//! hands out byte-range allocations, writes payloads into them, and reads
//! them back.  An allocation round-trips exactly: reading the range a
//! write returned reproduces the written bytes.

use vstd::prelude::*;
use crate::ribosome_encoding::RibosomeEncodedValue;
use crate::ribosome_encoding::RibosomeErrorCode;
use crate::ribosome_encoding::WasmAllocation;
use crate::ribosome_encoding::decode_value;
use crate::ribosome_encoding::encode_value;
use crate::ribosome_encoding::law_encode_decode_round_trip;

verus! {

/// The shared linear memory and its allocation frontier.
#[derive(Debug, PartialEq)]
pub struct WasmPageManager {
    /// The memory contents; everything below `buf.len()` is allocated.
    pub buf: Vec<u8>,
}

/// The bytes of the given allocation in the given memory.
pub open spec fn mem_read_spec(m: WasmPageManager, a: WasmAllocation) -> Seq<u8> {
    m.buf@.subrange(a.offset as int, a.offset as int + a.length as int)
}

/// Whether the allocation lies within the memory.
pub open spec fn mem_can_read(m: WasmPageManager, a: WasmAllocation) -> bool {
    a.offset as int + a.length as int <= m.buf@.len()
}

impl WasmPageManager {
    /// An empty shared memory.
    pub fn new() -> (r: Self)
        ensures
            r.buf@ == Seq::<u8>::empty(),
    {
        let r = WasmPageManager { buf: Vec::new() };
        proof {
            assert(r.buf@ =~= Seq::<u8>::empty());
        }
        r
    }

    /// Allocate a fresh range and write `bytes` into it.  Empty payloads
    /// and payloads that would push the frontier past the addressable
    /// range are refused, and the memory is then unchanged.
    pub fn write(&mut self, bytes: &Vec<u8>) -> (r: Result<WasmAllocation, RibosomeErrorCode>)
        ensures
            r is Ok <==> (bytes@.len() > 0 && old(self).buf@.len() + bytes@.len()
                <= u32::MAX),
            r matches Ok(a) ==> {
                &&& a.offset == old(self).buf@.len()
                &&& a.length == bytes@.len()
                &&& a.length > 0
                &&& final(self).buf@ == old(self).buf@ + bytes@
            },
            r matches Err(c) ==> *final(self) == *old(self) && (if bytes@.len() == 0 {
                c is ZeroSizedAllocation
            } else {
                c is OutOfMemory
            }),
    {
        if bytes.len() == 0 {
            return Err(RibosomeErrorCode::ZeroSizedAllocation);
        }
        if self.buf.len() > (u32::MAX as usize) || bytes.len() > (u32::MAX as usize)
            - self.buf.len() {
            return Err(RibosomeErrorCode::OutOfMemory);
        }
        let offset = self.buf.len() as u32;
        let length = bytes.len() as u32;
        crate::hashing::append_bytes(&mut self.buf, bytes.as_slice());
        Ok(WasmAllocation { offset, length })
    }

    /// Whether the allocation lies within the memory.
    pub fn can_read(&self, a: &WasmAllocation) -> (r: bool)
        ensures
            r == mem_can_read(*self, *a),
    {
        (a.offset as usize) <= self.buf.len() && (a.length as usize) <= self.buf.len() - (
        a.offset as usize)
    }

    /// Read the bytes of an allocation.
    pub fn read(&self, a: &WasmAllocation) -> (r: Vec<u8>)
        requires
            mem_can_read(*self, *a),
        ensures
            r@ == mem_read_spec(*self, *a),
    {
        let mut out: Vec<u8> = Vec::new();
        proof {
            vstd::std_specs::vec::axiom_spec_len(&self.buf);
        }
        let start = a.offset as usize;
        let end = start + (a.length as usize);
        let mut i: usize = start;
        proof {
            assert(out@ =~= self.buf@.subrange(start as int, start as int));
        }
        while i < end
            invariant
                start <= i <= end,
                end == a.offset as int + a.length as int,
                start == a.offset as int,
                end <= self.buf@.len(),
                out@ == self.buf@.subrange(start as int, i as int),
            decreases end - i,
        {
            out.push(self.buf[i]);
            proof {
                assert(out@ =~= self.buf@.subrange(start as int, (i + 1) as int));
            }
            i = i + 1;
        }
        out
    }
}

/// What storing a payload behind an encoded handle does: when the
/// payload fits, the memory grows by exactly the payload and the word
/// decodes to its allocation; when it does not, the memory is unchanged
/// and the word decodes to the unspecified failure code.
pub open spec fn stores_payload(
    pre: WasmPageManager,
    post: WasmPageManager,
    payload: Seq<u8>,
    w: u64,
) -> bool {
    if payload.len() > 0 && pre.buf@.len() + payload.len() <= u32::MAX {
        &&& post.buf@ == pre.buf@ + payload
        &&& decode_value(w) == RibosomeEncodedValue::Allocation(
            WasmAllocation { offset: pre.buf@.len() as u32, length: payload.len() as u32 },
        )
    } else {
        &&& post == pre
        &&& decode_value(w) == RibosomeEncodedValue::Failure(RibosomeErrorCode::Unspecified)
    }
}

/// Encoding boundary: for every payload/handle pair the allocator
/// produced, decoding the handle and reading the allocation reproduces
/// the exact payload bytes.
pub proof fn law_encoding_boundary(
    pre: WasmPageManager,
    post: WasmPageManager,
    payload: Seq<u8>,
    a: WasmAllocation,
)
    requires
        payload.len() > 0,
        pre.buf@.len() + payload.len() <= u32::MAX,
        a.offset == pre.buf@.len(),
        a.length == payload.len(),
        post.buf@ == pre.buf@ + payload,
    ensures
        decode_value(encode_value(RibosomeEncodedValue::Allocation(a)))
            == RibosomeEncodedValue::Allocation(a),
        mem_can_read(post, a),
        mem_read_spec(post, a) == payload,
{
    law_encode_decode_round_trip(RibosomeEncodedValue::Allocation(a));
    assert(mem_read_spec(post, a) =~= payload);
}

} // verus!

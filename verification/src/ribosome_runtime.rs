//! The execution host: the boundary through which sandboxed application
//! code calls host functions.
//!
//! Host functions are indexed by a stable number; complex arguments and
//! results never cross the boundary by value but as encoded allocations of
//! the shared memory (see the encoding and memory modules).  An unknown
//! function index is a fatal sandbox violation for the calling context; a
//! malformed argument is an encoded failure handed back to the caller.

use vstd::prelude::*;
use crate::action::Action;
use crate::action::ActionWrapper;
use crate::context::Context;
use crate::entry::DeletionEntry;
use crate::entry::Entry;
use crate::error::HolochainError;
use crate::error::error_text;
use crate::hashing::Address;
use crate::hashing::all_ascii_bytes;
use crate::hashing::ascii_chars_of;
use crate::hashing::be64_of;
use crate::hashing::push_be64;
use crate::hashing::string_from_ascii;
use crate::hashing::utf8_of;
use crate::instance::Instance;
use crate::ribosome_encoding::RibosomeEncodedValue;
use crate::ribosome_encoding::RibosomeErrorCode;
use crate::ribosome_encoding::encode;
use crate::ribosome_encoding::encode_value;
use crate::ribosome_encoding::law_encode_decode_round_trip;
use crate::ribosome_memory::WasmPageManager;
use crate::state::reduce_rel;
use crate::workflows::stored_entry;

verus! {

/// A call of one function of one zome, with serialized parameters.
#[derive(Debug, PartialEq)]
pub struct ZomeFnCall {
    pub zome_name: String,
    pub fn_name: String,
    pub parameters: String,
}

impl Clone for ZomeFnCall {
    fn clone(&self) -> (r: Self)
        ensures
            r == *self,
    {
        ZomeFnCall {
            zome_name: self.zome_name.clone(),
            fn_name: self.fn_name.clone(),
            parameters: self.parameters.clone(),
        }
    }
}

/// The identity context of one zome call: which node, which application,
/// which function call.
#[derive(Debug, PartialEq)]
pub struct ZomeCallData {
    /// The node this call runs against.
    pub context: Context,
    /// The name of the application being hosted.
    pub dna_name: String,
    /// The zome function call that entered the host.
    pub zome_call: ZomeFnCall,
}

impl Clone for ZomeCallData {
    fn clone(&self) -> (r: Self)
        ensures
            r == *self,
    {
        ZomeCallData {
            context: self.context.clone(),
            dna_name: self.dna_name.clone(),
            zome_call: self.zome_call.clone(),
        }
    }
}

/// What kind of call entered the host.
#[derive(Debug, PartialEq)]
pub enum WasmCallData {
    /// A zome call with its full identity context.
    ZomeCall(ZomeCallData),
    /// A direct call of a named function, without zome context.
    DirectCall(String),
}

impl WasmCallData {
    /// A zome call for the given node, application and function call.
    pub fn new_zome_call(context: Context, dna_name: String, zome_call: ZomeFnCall) -> (r: Self)
        ensures
            r == WasmCallData::ZomeCall(ZomeCallData { context, dna_name, zome_call }),
    {
        WasmCallData::ZomeCall(ZomeCallData { context, dna_name, zome_call })
    }

    /// The name of the function this call targets.
    pub fn fn_name(&self) -> (r: String)
        ensures
            match self {
                WasmCallData::ZomeCall(data) => r == data.zome_call.fn_name,
                WasmCallData::DirectCall(name) => r == name,
            },
    {
        match self {
            WasmCallData::ZomeCall(data) => data.zome_call.fn_name.clone(),
            WasmCallData::DirectCall(name) => name.clone(),
        }
    }
}

/// A fatal sandbox violation: the calling execution context cannot
/// continue; shared state outside it is unaffected.
#[derive(Clone, Copy, Debug, PartialEq, Eq, Structural)]
pub enum Trap {
    Unreachable,
}

/// What a host function hands back to the sandbox: an encoded boundary
/// word, or a trap that ends the execution context.
pub type ZomeApiResult = Result<Option<u64>, Trap>;

/// The host functions callable from sandboxed code, by stable index.
#[derive(Clone, Copy, Debug, PartialEq, Eq, Structural)]
pub enum ZomeApiFunction {
    /// An index that names no function.
    MissingNo,
    /// Remove (mark deleted) an entry.
    RemoveEntry,
}

impl ZomeApiFunction {
    /// The function behind an index; unknown indexes name no function.
    pub fn from_index(index: usize) -> (r: ZomeApiFunction)
        ensures
            r == (if index == 1 {
                ZomeApiFunction::RemoveEntry
            } else {
                ZomeApiFunction::MissingNo
            }),
    {
        if index == 1 {
            ZomeApiFunction::RemoveEntry
        } else {
            ZomeApiFunction::MissingNo
        }
    }
}

/// The host-side state of one sandboxed execution: the shared memory, the
/// call's identity context, and the node the host functions act on.
#[derive(Debug)]
pub struct Runtime {
    /// Memory state tracker between host and sandboxed module.
    pub memory_manager: WasmPageManager,
    /// The identity context of the running call.
    pub data: WasmCallData,
    /// The node whose chain, shard and network the host functions reach.
    pub instance: Instance,
}

/// The bytes of the serialized null value.
pub open spec fn null_json_bytes() -> Seq<u8> {
    seq![110u8, 117u8, 108u8, 108u8]
}

/// What loading a serialized argument from the boundary word list yields:
/// exactly one word is expected; a success word carries the null value, a
/// failure word is not an argument, and an allocation is read from memory
/// if it lies within it.
pub open spec fn load_spec(mem: Seq<u8>, args: Seq<u64>) -> Result<Seq<u8>, RibosomeErrorCode> {
    if args.len() != 1 {
        Err(RibosomeErrorCode::ArgumentDeserializationFailed)
    } else {
        match crate::ribosome_encoding::decode_value(args[0]) {
            RibosomeEncodedValue::Success => Ok(null_json_bytes()),
            RibosomeEncodedValue::Failure(_) => Err(RibosomeErrorCode::NotAnAllocation),
            RibosomeEncodedValue::Allocation(a) => if a.offset as int + a.length as int
                <= mem.len() {
                Ok(mem.subrange(a.offset as int, a.offset as int + a.length as int))
            } else {
                Err(RibosomeErrorCode::NotAnAllocation)
            },
        }
    }
}

impl Runtime {
    /// The zome-call context of this execution; a direct call has none,
    /// which is fatal to the context.
    pub fn zome_call_data(&self) -> (r: Result<ZomeCallData, Trap>)
        ensures
            match self.data {
                WasmCallData::ZomeCall(data) => r == Ok::<ZomeCallData, Trap>(data),
                WasmCallData::DirectCall(_) => r == Err::<ZomeCallData, Trap>(Trap::Unreachable),
            },
    {
        match &self.data {
            WasmCallData::ZomeCall(data) => Ok(data.clone()),
            WasmCallData::DirectCall(_) => Err(Trap::Unreachable),
        }
    }

    /// Load the serialized argument named by the boundary word list.
    pub fn load_json_string_from_args(&self, args: &Vec<u64>) -> (r: Result<
        Vec<u8>,
        RibosomeErrorCode,
    >)
        ensures
            match (r, load_spec(self.memory_manager.buf@, args@)) {
                (Ok(bytes), Ok(expected)) => bytes@ == expected,
                (Err(c), Err(d)) => c == d,
                _ => false,
            },
    {
        if args.len() != 1 {
            return Err(RibosomeErrorCode::ArgumentDeserializationFailed);
        }
        match crate::ribosome_encoding::decode(args[0]) {
            RibosomeEncodedValue::Success => {
                let mut out: Vec<u8> = Vec::new();
                out.push(110u8);
                out.push(117u8);
                out.push(108u8);
                out.push(108u8);
                proof {
                    assert(out@ =~= null_json_bytes());
                }
                Ok(out)
            },
            RibosomeEncodedValue::Failure(_) => Err(RibosomeErrorCode::NotAnAllocation),
            RibosomeEncodedValue::Allocation(a) => {
                if self.memory_manager.can_read(&a) {
                    Ok(self.memory_manager.read(&a))
                } else {
                    Err(RibosomeErrorCode::NotAnAllocation)
                }
            },
        }
    }

    /// Serialize a result into a fresh allocation, appending the
    /// terminating sentinel byte, and hand back the encoded handle; if no
    /// allocation can be made, the unspecified failure code is encoded
    /// instead.
    pub fn store_as_json_string(&mut self, json: Vec<u8>) -> (r: ZomeApiResult)
        ensures
            final(self).data == old(self).data,
            final(self).instance == old(self).instance,
            r matches Ok(Some(w)) && crate::ribosome_memory::stores_payload(
                old(self).memory_manager,
                final(self).memory_manager,
                json@ + seq![0u8],
                w,
            ),
    {
        let mut payload = json;
        payload.push(0u8);
        proof {
            assert(payload@ =~= json@ + seq![0u8]);
        }
        match self.memory_manager.write(&payload) {
            Ok(allocation) => {
                proof {
                    law_encode_decode_round_trip(RibosomeEncodedValue::Allocation(allocation));
                }
                Ok(Some(encode(RibosomeEncodedValue::Allocation(allocation))))
            },
            Err(_) => {
                proof {
                    law_encode_decode_round_trip(
                        RibosomeEncodedValue::Failure(RibosomeErrorCode::Unspecified),
                    );
                }
                Ok(Some(encode(RibosomeEncodedValue::Failure(RibosomeErrorCode::Unspecified))))
            },
        }
    }

    /// Frame a workflow result and store it for the sandbox: a success
    /// flag, the value bytes, and the error text.
    pub fn store_result(&mut self, result: Result<Vec<u8>, HolochainError>) -> (r: ZomeApiResult)
        ensures
            final(self).data == old(self).data,
            final(self).instance == old(self).instance,
            r matches Ok(Some(w)) && (match result {
                Ok(v) => crate::ribosome_memory::stores_payload(
                    old(self).memory_manager,
                    final(self).memory_manager,
                    internal_result_bytes(true, v@, Seq::<u8>::empty()) + seq![0u8],
                    w,
                ),
                Err(e) => crate::ribosome_memory::stores_payload(
                    old(self).memory_manager,
                    final(self).memory_manager,
                    internal_result_bytes(false, Seq::<u8>::empty(), utf8_of(error_text(e)))
                        + seq![0u8],
                    w,
                ),
            }),
    {
        let framed = match result {
            Ok(v) => frame_internal_result(true, &v, &Vec::new()),
            Err(e) => {
                let msg = e.describe();
                let error_bytes = msg.as_str().as_bytes_vec();
                frame_internal_result(false, &Vec::new(), &error_bytes)
            },
        };
        self.store_as_json_string(framed)
    }
}

/// The successful tail of the remove-entry pipeline: a deletion entry for
/// the target address was committed to the chain, then the target was
/// marked deleted in the DHT metadata, and a success frame was stored for
/// the sandbox.
pub open spec fn remove_entry_succeeded(
    pre: Runtime,
    post: Runtime,
    addr: Seq<char>,
    r: ZomeApiResult,
) -> bool {
    exists|deletion: Entry, crud: Option<Address>, mid: crate::state::State, d2: Address, d3: Address|
        {
            &&& #[trigger] remove_entry_steps(pre, post, addr, deletion, crud, mid, d2, d3)
            &&& post.instance.next_id == pre.instance.next_id + 3
            &&& post.instance.context == pre.instance.context
            &&& post.data == pre.data
            &&& r matches Ok(Some(w)) && crate::ribosome_memory::stores_payload(
                pre.memory_manager,
                post.memory_manager,
                internal_result_bytes(true, Seq::<u8>::empty(), Seq::<u8>::empty()) + seq![0u8],
                w,
            )
        }
}

/// The steps of a successful remove-entry pipeline: the deletion entry is
/// committed to the chain and held in the shard, then the target is
/// marked deleted.
pub open spec fn remove_entry_steps(
    pre: Runtime,
    post: Runtime,
    addr: Seq<char>,
    deletion: Entry,
    crud: Option<Address>,
    mid: crate::state::State,
    d2: Address,
    d3: Address,
) -> bool {
    &&& deletion matches Entry::Deletion(d) && d.deleted_entry_address@ == addr
    &&& crud matches Some(c) && c@ == addr
    &&& d2@ == addr
    &&& d3@ == crate::entry::entry_address_text(deletion)
    &&& crate::workflows::commit_and_hold_rel(
        pre.instance.context,
        pre.instance.state,
        mid,
        deletion,
        crud,
        pre.instance.next_id,
    )
    &&& crate::dht::cas_has(
        post.instance.state.dht.entries@,
        crate::entry::entry_address_text(deletion),
    )
    &&& reduce_rel(
        pre.instance.context,
        mid,
        post.instance.state,
        (ActionWrapper {
            id: (pre.instance.next_id + 2) as u64,
            action: Action::RemoveEntry(d2, d3),
        }),
    )
}

/// Everything the remove-entry host function may do, by case: a direct
/// call traps; a malformed argument or an unknown address is an encoded
/// failure with nothing changed; a node without an installed application
/// stores an error frame; otherwise the deletion is committed and the
/// target marked deleted.
pub open spec fn remove_entry_rel(
    pre: Runtime,
    post: Runtime,
    args: Seq<u64>,
    r: ZomeApiResult,
) -> bool {
    match pre.data {
        WasmCallData::DirectCall(_) => r == Err::<Option<u64>, Trap>(Trap::Unreachable) && post
            == pre,
        WasmCallData::ZomeCall(_) => match load_spec(pre.memory_manager.buf@, args) {
            Err(_) => r == Ok::<Option<u64>, Trap>(
                Some(
                    encode_value(
                        RibosomeEncodedValue::Failure(
                            RibosomeErrorCode::ArgumentDeserializationFailed,
                        ),
                    ),
                ),
            ) && post == pre,
            Ok(bytes) => if !all_ascii_bytes(bytes) {
                r == Ok::<Option<u64>, Trap>(
                    Some(
                        encode_value(
                            RibosomeEncodedValue::Failure(
                                RibosomeErrorCode::ArgumentDeserializationFailed,
                            ),
                        ),
                    ),
                ) && post == pre
            } else {
                let addr = ascii_chars_of(bytes);
                match stored_entry(pre.instance.state, addr) {
                    None => r == Ok::<Option<u64>, Trap>(
                        Some(
                            encode_value(
                                RibosomeEncodedValue::Failure(RibosomeErrorCode::Unspecified),
                            ),
                        ),
                    ) && post == pre,
                    Some(_) => match pre.instance.state.nucleus.dna {
                        None => {
                            &&& post.instance == pre.instance
                            &&& post.data == pre.data
                            &&& r matches Ok(Some(w))
                                && crate::ribosome_memory::stores_payload(
                                pre.memory_manager,
                                post.memory_manager,
                                internal_result_bytes(
                                    false,
                                    Seq::<u8>::empty(),
                                    utf8_of("DNA not initialized"@),
                                ) + seq![0u8],
                                w,
                            )
                        },
                        Some(_) => remove_entry_succeeded(pre, post, addr, r),
                    },
                }
            },
        },
    }
}

/// The remove-entry host function: takes one encoded argument naming an
/// address, resolves the entry, commits a deletion entry for it (to the
/// chain and the node's own shard), and marks the target deleted in the
/// DHT metadata; the framed outcome is handed back through a fresh
/// allocation.
pub fn invoke_remove_entry(runtime: &mut Runtime, args: &Vec<u64>) -> (r: ZomeApiResult)
    requires
        old(runtime).instance.wf(),
        old(runtime).instance.next_id + 3 <= u64::MAX,
        old(runtime).instance.state.dht.meta.rows@.len() + 3 <= u64::MAX,
    ensures
        remove_entry_rel(*old(runtime), *final(runtime), args@, r),
        final(runtime).instance.wf(),
{
    match &runtime.data {
        WasmCallData::ZomeCall(_) => {},
        WasmCallData::DirectCall(_) => {
            return Err(Trap::Unreachable);
        },
    }
    let args_bytes = match runtime.load_json_string_from_args(args) {
        Ok(b) => b,
        Err(_) => {
            return Ok(
                Some(
                    encode(
                        RibosomeEncodedValue::Failure(
                            RibosomeErrorCode::ArgumentDeserializationFailed,
                        ),
                    ),
                ),
            );
        },
    };
    if !crate::hashing::bytes_are_ascii(&args_bytes) {
        return Ok(
            Some(
                encode(
                    RibosomeEncodedValue::Failure(
                        RibosomeErrorCode::ArgumentDeserializationFailed,
                    ),
                ),
            ),
        );
    }
    let deleted_entry_address: Address = string_from_ascii(args_bytes);
    let get_args = crate::workflows::GetEntryArgs {
        address: deleted_entry_address.clone(),
        options: crate::workflows::GetEntryOptions::default(),
    };
    let entry_result = match crate::workflows::get_entry_result_workflow(
        &runtime.instance.state,
        &get_args,
    ) {
        Ok(res) => res,
        Err(_) => {
            return Ok(
                Some(encode(RibosomeEncodedValue::Failure(RibosomeErrorCode::Unspecified))),
            );
        },
    };
    if !entry_result.found() {
        return Ok(Some(encode(RibosomeEncodedValue::Failure(RibosomeErrorCode::Unspecified))));
    }
    let has_dna = runtime.instance.state.nucleus().dna.is_some();
    if !has_dna {
        return runtime.store_result(
            Err(HolochainError::ErrorGeneric("DNA not initialized".to_owned())),
        );
    }
    let deletion_entry = Entry::Deletion(DeletionEntry::new(deleted_entry_address.clone()));
    let deletion_address = deletion_entry.address();
    let ghost g_deletion = deletion_entry;
    let ghost g_crud: Option<Address> = Some(deleted_entry_address);
    let ghost g_d2 = deleted_entry_address;
    let ghost g_d3 = deletion_address;
    let _committed = crate::workflows::commit_entry(
        deletion_entry,
        Some(deleted_entry_address.clone()),
        &mut runtime.instance,
    );
    let ghost g_mid = runtime.instance.state;
    runtime.instance.dispatch(Action::RemoveEntry(deleted_entry_address, deletion_address));
    let empty_value: Vec<u8> = Vec::new();
    proof {
        assert(empty_value@ =~= Seq::<u8>::empty());
    }
    let r = runtime.store_result(Ok(empty_value));
    proof {
        let ghost addr = match load_spec(old(runtime).memory_manager.buf@, args@) {
            Ok(b) => ascii_chars_of(b),
            Err(_) => Seq::<char>::empty(),
        };
        assert(remove_entry_steps(
            *old(runtime),
            *runtime,
            addr,
            g_deletion,
            g_crud,
            g_mid,
            g_d2,
            g_d3,
        ));
        assert(remove_entry_succeeded(*old(runtime), *runtime, addr, r));
    }
    r
}

/// Correlate the indexes of host functions with the functions
/// themselves: the dispatch table of the execution host.
pub fn invoke_index(runtime: &mut Runtime, index: usize, args: &Vec<u64>) -> (r: ZomeApiResult)
    requires
        index == 1 ==> old(runtime).instance.wf() && old(runtime).instance.next_id + 3
            <= u64::MAX && old(runtime).instance.state.dht.meta.rows@.len() + 3 <= u64::MAX,
    ensures
        index != 1 ==> r == Err::<Option<u64>, Trap>(Trap::Unreachable) && *final(runtime)
            == *old(runtime),
        index == 1 ==> remove_entry_rel(*old(runtime), *final(runtime), args@, r),
{
    let zf = ZomeApiFunction::from_index(index);
    match zf {
        ZomeApiFunction::MissingNo => Err(Trap::Unreachable),
        ZomeApiFunction::RemoveEntry => invoke_remove_entry(runtime, args),
    }
}

/// The framed form of a host-function result: a success flag, then the
/// length-prefixed value bytes, then the length-prefixed error bytes.
pub open spec fn internal_result_bytes(ok: bool, value: Seq<u8>, error: Seq<u8>) -> Seq<u8> {
    seq![
        if ok {
            1u8
        } else {
            0u8
        },
    ] + be64_of(value.len() as u64) + value + be64_of(error.len() as u64) + error
}

/// Build the framed form of a host-function result.
fn frame_internal_result(ok: bool, value: &Vec<u8>, error: &Vec<u8>) -> (r: Vec<u8>)
    ensures
        r@ == internal_result_bytes(ok, value@, error@),
{
    let mut out: Vec<u8> = Vec::new();
    if ok {
        out.push(1u8);
    } else {
        out.push(0u8);
    }
    push_be64(&mut out, value.len() as u64);
    crate::hashing::append_bytes(&mut out, value.as_slice());
    push_be64(&mut out, error.len() as u64);
    crate::hashing::append_bytes(&mut out, error.as_slice());
    proof {
        assert(out@ =~= internal_result_bytes(ok, value@, error@));
    }
    out
}

} // verus!

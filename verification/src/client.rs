//! The operations that a sandboxed process calls to reach the cluster.
//!
//! Each operation is given what it reads as plain values: the sandbox's
//! memory, the scratch slot, what the control plane reported. Where an
//! operation has to wait for another node, it comes in two parts: the first
//! says what is to be sent, the second takes in what came back.

use crate::mailbox::{spec_first_match, Mailbox, ScratchSlot};
use crate::memory::{read_bytes, spec_in_bounds, spec_region, spec_write, write_bytes};
use crate::message::{Message, MessageView};
use crate::protocol::{Request, RequestView, Spawn, SpawnView};
use crate::value::{decode_params, spec_decode, Val};
use vstd::bytes::*;
use vstd::prelude::*;
use vstd::string::*;
use vstd::utf8::*;

verus! {

/// The status of a spawn that gave a process.
pub const SPAWNED: u32 = 0;

/// The status of a spawn that the other node could not carry out.
pub const SPAWN_FAILED: u32 = 1;

/// The status of a receive that a message ended.
pub const RECEIVED: u32 = 0;

/// The status of a receive that brought no message.
pub const NO_MESSAGE: u32 = 9027;

/// The configuration id that stands for the caller's own configuration.
pub const INHERIT_CONFIG: i64 = -1;

/// The stretch of sandbox memory that an operation was handed.
#[derive(Clone, Copy, Debug, PartialEq, Eq, Structural)]
pub enum Region {
    /// The name of the entry function.
    FunctionName,
    /// The parameter buffer.
    Params,
    /// The place for the id of the new process.
    ProcessId,
    /// The place for the node ids.
    NodeIds,
}

/// Why an operation failed. Each of these ends the calling process.
#[derive(Clone, Copy, Debug, PartialEq, Eq, Structural)]
pub enum HostError {
    /// The process may not spawn other processes.
    PermissionDenied,
    /// A stretch of memory does not lie inside the sandbox.
    OutOfBounds(Region),
    /// The name of the entry function is not UTF-8.
    InvalidUtf8,
    /// The parameter buffer holds a record with an unknown tag.
    UnsupportedType,
    /// No configuration is registered under the id.
    ConfigNotFound,
    /// There is no message in the scratch slot.
    NoMessage,
}

/// `std::str::from_utf8`: the string that the bytes spell, or `None` where
/// they are not valid UTF-8. The string has exactly those bytes.
#[verifier::external_body]
fn str_from_utf8(bytes: &[u8]) -> (text: Option<&str>)
    ensures
        text is Some <==> valid_utf8(bytes@),
        text matches Some(s) ==> s.spec_bytes() == bytes@,
{
    std::str::from_utf8(bytes).ok()
}

/// The number of nodes to report: what the control plane knows, cut to 32
/// bits, or zero for a process that has no control plane.
pub fn nodes_count(known: Option<usize>) -> (count: u32)
    ensures
        known is None ==> count == 0,
        known matches Some(n) ==> count == n as u32,
        known matches Some(n) ==> n <= u32::MAX ==> count == n,
{
    match known {
        Some(n) => n as u32,
        None => 0,
    }
}

/// The id of the node that a process runs on, or zero for a process that is
/// not part of a cluster.
pub fn node_id(placement: Option<u64>) -> (id: u64)
    ensures
        id == (match placement {
            Some(node) => node,
            None => 0,
        }),
{
    match placement {
        Some(node) => node,
        None => 0,
    }
}

/// The id of the module that a process was spawned from, or zero for a
/// process that is not part of a cluster.
pub fn module_id(provenance: Option<u64>) -> (id: u64)
    ensures
        id == (match provenance {
            Some(module) => module,
            None => 0,
        }),
{
    match provenance {
        Some(module) => module,
        None => 0,
    }
}

/// The bytes of node ids in memory: eight little-endian bytes for each.
pub open spec fn spec_node_bytes(ids: Seq<u64>) -> Seq<u8> {
    Seq::new(8 * ids.len(), |k: int| spec_u64_to_le_bytes(ids[k / 8])[k % 8])
}

/// How many node ids a buffer with room for `capacity` ids receives.
pub open spec fn spec_copy_count(known: nat, capacity: u32) -> nat {
    if known <= capacity {
        known
    } else {
        capacity as nat
    }
}

/// Copies node ids into the caller's buffer at `nodes_ptr`, which has room
/// for `nodes_len` ids, and returns how many were written: all of them, or
/// as many as there is room for. Where those do not lie inside the memory
/// nothing is written.
pub fn get_nodes(memory: &mut [u8], node_ids: &[u64], nodes_ptr: u32, nodes_len: u32) -> (r: Result<
    u32,
    HostError,
>)
    ensures
        ({
            let count = spec_copy_count(node_ids@.len(), nodes_len);
            if spec_in_bounds(old(memory)@.len(), nodes_ptr as int, 8 * (count as int)) {
                &&& r == Ok::<u32, HostError>(count as u32)
                &&& final(memory)@ == spec_write(
                    old(memory)@,
                    nodes_ptr as int,
                    spec_node_bytes(node_ids@.take(count as int)),
                )
            } else {
                &&& r == Err::<u32, HostError>(HostError::OutOfBounds(Region::NodeIds))
                &&& final(memory)@ == old(memory)@
            }
        }),
{
    let count: usize = if node_ids.len() <= nodes_len as usize {
        node_ids.len()
    } else {
        nodes_len as usize
    };
    let mut bytes: Vec<u8> = Vec::new();
    let mut i: usize = 0;
    while i < count
        invariant
            i <= count <= node_ids@.len(),
            bytes@ == spec_node_bytes(node_ids@.take(i as int)),
        decreases count - i,
    {
        let mut id_bytes: Vec<u8> = u64_to_le_bytes(node_ids[i]);
        bytes.append(&mut id_bytes);
        proof {
            let shorter = node_ids@.take(i as int);
            let longer = node_ids@.take(i + 1);
            assert forall|k: int| 0 <= k < 8 * (i + 1) implies bytes@[k] == spec_node_bytes(
                longer,
            )[k] by {
                if k < 8 * i {
                    assert(shorter[k / 8] == longer[k / 8]);
                } else {
                    assert(k / 8 == i);
                    assert(k % 8 == k - 8 * i);
                }
            }
            assert(bytes@ =~= spec_node_bytes(longer));
        }
        i = i + 1;
    }
    if write_bytes(memory, nodes_ptr as usize, bytes.as_slice()) {
        Ok(count as u32)
    } else {
        Err(HostError::OutOfBounds(Region::NodeIds))
    }
}

/// What a spawn call asks for, once its arguments have been read: the entry
/// function, its parameters, and the configuration for the new process.
pub struct SpawnPlan<'a, C> {
    pub function: String,
    pub params: Vec<Val>,
    pub config: &'a C,
}

/// The configuration that a spawn call selects: the caller's own for the id
/// `INHERIT_CONFIG`, else the one registered under the id.
pub open spec fn spec_select_config<C>(config_id: i64, own: C, registered: Option<C>) -> Result<
    C,
    HostError,
> {
    if config_id == INHERIT_CONFIG {
        Ok(own)
    } else {
        match registered {
            Some(config) => Ok(config),
            None => Err(HostError::ConfigNotFound),
        }
    }
}

/// What a spawn call asks for, or the first reason to refuse it. The checks
/// come in this order: the permission to spawn, the place of the function
/// name, its encoding, the place of the parameter buffer, its records, and
/// the configuration.
pub open spec fn spec_spawn<C>(
    can_spawn: bool,
    memory: Seq<u8>,
    func_str_ptr: u32,
    func_str_len: u32,
    params_ptr: u32,
    params_len: u32,
    config_id: i64,
    own: C,
    registered: Option<C>,
) -> Result<(Seq<char>, Seq<Val>, C), HostError> {
    let name = spec_region(memory, func_str_ptr as int, func_str_len as int);
    let buffer = spec_region(memory, params_ptr as int, params_len as int);
    if !can_spawn {
        Err(HostError::PermissionDenied)
    } else if !spec_in_bounds(memory.len(), func_str_ptr as int, func_str_len as int) {
        Err(HostError::OutOfBounds(Region::FunctionName))
    } else if !valid_utf8(name) {
        Err(HostError::InvalidUtf8)
    } else if !spec_in_bounds(memory.len(), params_ptr as int, params_len as int) {
        Err(HostError::OutOfBounds(Region::Params))
    } else {
        match spec_decode(buffer) {
            Err(_) => Err(HostError::UnsupportedType),
            Ok(params) => match spec_select_config(config_id, own, registered) {
                Err(e) => Err(e),
                Ok(config) => Ok((decode_utf8(name), params, config)),
            },
        }
    }
}

/// The id under which the table of registered configurations is asked for
/// the configuration of a spawn call: the given id as an unsigned number, and
/// none for `INHERIT_CONFIG`, which asks for no registered configuration.
pub fn config_resource_id(config_id: i64) -> (id: Option<u64>)
    ensures
        id == (if config_id == INHERIT_CONFIG {
            None
        } else {
            Some(config_id as u64)
        }),
{
    if config_id == INHERIT_CONFIG {
        None
    } else {
        Some(config_id as u64)
    }
}

/// The configuration that a spawn call selects. `registered` is what the
/// table of registered configurations holds under `config_id`.
pub fn select_config<'a, C>(config_id: i64, own: &'a C, registered: Option<&'a C>) -> (r: Result<
    &'a C,
    HostError,
>)
    ensures
        match r {
            Ok(config) => spec_select_config(config_id, *own, spec_deref(registered)) == Ok::<
                C,
                HostError,
            >(*config),
            Err(e) => spec_select_config(config_id, *own, spec_deref(registered)) == Err::<
                C,
                HostError,
            >(e),
        },
{
    if config_id == INHERIT_CONFIG {
        Ok(own)
    } else {
        match registered {
            Some(config) => Ok(config),
            None => Err(HostError::ConfigNotFound),
        }
    }
}

/// What an optional reference refers to.
pub open spec fn spec_deref<C>(r: Option<&C>) -> Option<C> {
    match r {
        Some(c) => Some(*c),
        None => None,
    }
}

/// Reads the arguments of a spawn call: checks the permission, reads the
/// name of the entry function and the parameters from the sandbox's memory,
/// and selects the configuration. `registered` is what the table of
/// registered configurations holds under `config_id`.
pub fn spawn<'a, C>(
    can_spawn: bool,
    memory: &[u8],
    func_str_ptr: u32,
    func_str_len: u32,
    params_ptr: u32,
    params_len: u32,
    config_id: i64,
    own: &'a C,
    registered: Option<&'a C>,
) -> (r: Result<SpawnPlan<'a, C>, HostError>)
    ensures
        match r {
            Ok(plan) => spec_spawn(
                can_spawn,
                memory@,
                func_str_ptr,
                func_str_len,
                params_ptr,
                params_len,
                config_id,
                *own,
                spec_deref(registered),
            ) == Ok::<(Seq<char>, Seq<Val>, C), HostError>(
                (plan.function@, plan.params@, *plan.config),
            ),
            Err(e) => spec_spawn(
                can_spawn,
                memory@,
                func_str_ptr,
                func_str_len,
                params_ptr,
                params_len,
                config_id,
                *own,
                spec_deref(registered),
            ) == Err::<(Seq<char>, Seq<Val>, C), HostError>(e),
        },
{
    if !can_spawn {
        return Err(HostError::PermissionDenied);
    }
    let name = match read_bytes(memory, func_str_ptr, func_str_len) {
        Some(bytes) => bytes,
        None => {
            return Err(HostError::OutOfBounds(Region::FunctionName));
        },
    };
    let function = match str_from_utf8(name) {
        Some(text) => text,
        None => {
            return Err(HostError::InvalidUtf8);
        },
    };
    proof {
        encode_utf8_decode_utf8(function@);
    }
    let buffer = match read_bytes(memory, params_ptr, params_len) {
        Some(bytes) => bytes,
        None => {
            return Err(HostError::OutOfBounds(Region::Params));
        },
    };
    let params = match decode_params(buffer) {
        Ok(params) => params,
        Err(_) => {
            return Err(HostError::UnsupportedType);
        },
    };
    let config = match select_config(config_id, own, registered) {
        Ok(config) => config,
        Err(e) => {
            return Err(e);
        },
    };
    Ok(SpawnPlan { function: function.to_owned(), params, config })
}

impl<'a, C> SpawnPlan<'a, C> {
    /// The request to send to the target node, once the configuration has
    /// been put into bytes.
    pub fn into_request(self, environment_id: u64, module_id: u64, config: Vec<u8>) -> (spawn: Spawn)
        ensures
            spawn@ == (SpawnView {
                environment_id,
                module_id,
                function: self.function@,
                params: self.params@,
                config: config@,
            }),
    {
        Spawn { environment_id, module_id, function: self.function, params: self.params, config }
    }
}

/// The id to report and the status to return for the outcome of a spawn:
/// the new process and `SPAWNED`, or zero and `SPAWN_FAILED`. Why the other
/// node failed is not passed on.
pub open spec fn spec_spawn_status<E>(outcome: Result<u64, E>) -> (u64, u32) {
    match outcome {
        Ok(id) => (id, SPAWNED),
        Err(_) => (0, SPAWN_FAILED),
    }
}

/// Takes in the outcome of a spawn: writes the id to report at `id_ptr`, as
/// eight little-endian bytes, and returns the status. Where the place for
/// the id does not lie inside the memory nothing is written.
pub fn complete_spawn<E>(memory: &mut [u8], id_ptr: u32, outcome: Result<u64, E>) -> (r: Result<
    u32,
    HostError,
>)
    ensures
        ({
            let (id, status) = spec_spawn_status(outcome);
            if spec_in_bounds(old(memory)@.len(), id_ptr as int, 8) {
                &&& r == Ok::<u32, HostError>(status)
                &&& final(memory)@ == spec_write(
                    old(memory)@,
                    id_ptr as int,
                    spec_u64_to_le_bytes(id),
                )
            } else {
                &&& r == Err::<u32, HostError>(HostError::OutOfBounds(Region::ProcessId))
                &&& final(memory)@ == old(memory)@
            }
        }),
{
    let (id, status): (u64, u32) = match outcome {
        Ok(id) => (id, SPAWNED),
        Err(_) => (0, SPAWN_FAILED),
    };
    let bytes: Vec<u8> = u64_to_le_bytes(id);
    if write_bytes(memory, id_ptr as usize, bytes.as_slice()) {
        Ok(status)
    } else {
        Err(HostError::OutOfBounds(Region::ProcessId))
    }
}

/// A data message on its way to a process on another node.
#[derive(Clone, Debug, PartialEq, Eq)]
pub struct Outbound {
    pub node_id: u64,
    pub environment_id: u64,
    pub process_id: u64,
    pub tag: Option<i64>,
    pub data: Vec<u8>,
}

/// An outbound message as plain values.
pub struct OutboundView {
    pub node_id: u64,
    pub environment_id: u64,
    pub process_id: u64,
    pub tag: Option<i64>,
    pub data: Seq<u8>,
}

impl View for Outbound {
    type V = OutboundView;

    open spec fn view(&self) -> OutboundView {
        OutboundView {
            node_id: self.node_id,
            environment_id: self.environment_id,
            process_id: self.process_id,
            tag: self.tag,
            data: self.data@,
        }
    }
}

impl Outbound {
    /// The request that carries the message to its node.
    pub fn into_request(self) -> (request: Request)
        ensures
            request@ == (RequestView::Message {
                environment_id: self.environment_id,
                process_id: self.process_id,
                tag: self.tag,
                data: self.data@,
            }),
    {
        Request::Message {
            environment_id: self.environment_id,
            process_id: self.process_id,
            tag: self.tag,
            data: self.data,
        }
    }
}

/// What is sent for a staged message: a data message goes to the target
/// process with its tag and its payload, and any other kind is not sent.
pub open spec fn spec_outbound(
    staged: MessageView,
    node_id: u64,
    environment_id: u64,
    process_id: u64,
) -> Option<OutboundView> {
    match staged {
        MessageView::Data(data) => Some(
            OutboundView { node_id, environment_id, process_id, tag: data.tag, data: data.buffer },
        ),
        _ => None,
    }
}

/// What an optional outbound message holds, as plain values.
pub open spec fn spec_outbound_view(outbound: Option<Outbound>) -> Option<OutboundView> {
    match outbound {
        Some(out) => Some(out@),
        None => None,
    }
}

/// Turns a message into what is sent for it.
fn outbound_for(message: Message, node_id: u64, environment_id: u64, process_id: u64) -> (out:
    Option<Outbound>)
    ensures
        spec_outbound_view(out) == spec_outbound(message@, node_id, environment_id, process_id),
{
    match message {
        Message::Data(data) => Some(
            Outbound { node_id, environment_id, process_id, tag: data.tag, data: data.buffer },
        ),
        _ => None,
    }
}

/// Takes the staged message out of the scratch slot and says what is to be
/// sent for it: `Ok(None)` where the message is of a kind that is not sent.
/// An empty slot is an error.
pub fn send(scratch: &mut ScratchSlot, node_id: u64, environment_id: u64, process_id: u64) -> (r:
    Result<Option<Outbound>, HostError>)
    ensures
        final(scratch)@ is None,
        match old(scratch)@ {
            Some(staged) => r matches Ok(out) && spec_outbound_view(out) == spec_outbound(
                staged,
                node_id,
                environment_id,
                process_id,
            ),
            None => r == Err::<Option<Outbound>, HostError>(HostError::NoMessage),
        },
{
    match scratch.take() {
        Some(message) => Ok(outbound_for(message, node_id, environment_id, process_id)),
        None => Err(HostError::NoMessage),
    }
}

/// How long a receive waits for a message.
#[derive(Clone, Copy, Debug, PartialEq, Eq, Structural)]
pub enum Wait {
    /// Until a message comes, however long that takes.
    Forever,
    /// At most this many milliseconds.
    Millis(u32),
}

/// The wait that a timeout stands for. Zero means no timeout, not no wait.
pub open spec fn spec_wait(timeout: u32) -> Wait {
    if timeout == 0 {
        Wait::Forever
    } else {
        Wait::Millis(timeout)
    }
}

/// A message on its way out whose reply is awaited.
#[derive(Clone, Debug, PartialEq, Eq)]
pub struct Exchange {
    /// What is to be sent.
    pub outbound: Outbound,
    /// The tag of the message sent. The reply carries the same tag; where
    /// there is none, any message is taken for the reply.
    pub reply_tag: Option<i64>,
    /// How long to wait for the reply.
    pub wait: Wait,
}

/// The filter that lets the reply to an exchange pass.
pub open spec fn spec_reply_filter(reply_tag: Option<i64>) -> Option<Seq<i64>> {
    match reply_tag {
        Some(tag) => Some(seq![tag]),
        None => None,
    }
}

/// Takes the staged message out of the scratch slot and says what is to be
/// sent and how to wait for the reply. Where the slot is empty, or holds a
/// message of a kind that is not sent, nothing is sent or awaited, and the
/// status to return is given instead.
pub fn send_receive_skip_search(
    scratch: &mut ScratchSlot,
    node_id: u64,
    environment_id: u64,
    process_id: u64,
    timeout: u32,
) -> (r: Result<Exchange, u32>)
    ensures
        final(scratch)@ is None,
        match old(scratch)@ {
            Some(MessageView::Data(data)) => {
                &&& r matches Ok(exchange)
                &&& spec_outbound_view(Some(exchange.outbound)) == spec_outbound(
                    MessageView::Data(data),
                    node_id,
                    environment_id,
                    process_id,
                )
                &&& exchange.reply_tag == data.tag
                &&& exchange.wait == spec_wait(timeout)
            },
            _ => r == Err::<Exchange, u32>(NO_MESSAGE),
        },
{
    let message = match scratch.take() {
        Some(message) => message,
        None => {
            return Err(NO_MESSAGE);
        },
    };
    let reply_tag = message.tag();
    match outbound_for(message, node_id, environment_id, process_id) {
        Some(outbound) => {
            let wait = if timeout == 0 {
                Wait::Forever
            } else {
                Wait::Millis(timeout)
            };
            Ok(Exchange { outbound, reply_tag, wait })
        },
        None => Err(NO_MESSAGE),
    }
}

impl Exchange {
    /// Looks for the reply in the mailbox: takes out the first message that
    /// carries the tag of the message sent, or the first message of all where
    /// that had no tag. Every other message stays where it is.
    pub fn receive(&self, mailbox: &mut Mailbox) -> (reply: Option<Message>)
        ensures
            match spec_first_match(old(mailbox)@, spec_reply_filter(self.reply_tag)) {
                Some(i) => {
                    &&& reply matches Some(message)
                    &&& message@ == old(mailbox)@[i]
                    &&& final(mailbox)@ == old(mailbox)@.remove(i)
                },
                None => reply is None && final(mailbox)@ == old(mailbox)@,
            },
    {
        match self.reply_tag {
            Some(tag) => {
                let tags: [i64; 1] = [tag];
                assert(tags@ =~= seq![tag]);
                mailbox.pop_matching(Some(tags.as_slice()))
            },
            None => mailbox.pop_matching(None),
        }
    }
}

/// Ends an exchange. A reply is laid into the scratch slot for the sandbox
/// to read, and the status is `RECEIVED`. Without a reply, because the wait
/// ran out, the slot is not touched and the status is `NO_MESSAGE`.
pub fn complete_exchange(scratch: &mut ScratchSlot, reply: Option<Message>) -> (status: u32)
    ensures
        match reply {
            Some(message) => status == RECEIVED && final(scratch)@ == Some(message@),
            None => status == NO_MESSAGE && final(scratch)@ == old(scratch)@,
        },
{
    match reply {
        Some(message) => {
            scratch.replace(message);
            RECEIVED
        },
        None => NO_MESSAGE,
    }
}

} // verus!

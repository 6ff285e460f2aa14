//! What nodes say to each other.
//!
//! A request travels with a 64-bit id that its sender chose; the answer, where
//! there is one, carries the same id. On a connection each message is a
//! frame: a header of four bytes that holds the length of the body, in
//! little-endian order, and then the body.

use crate::value::Val;
use vstd::array::array_as_slice;
use vstd::bytes::*;
use vstd::prelude::*;

verus! {

/// The length in bytes of a frame's header.
pub const FRAME_HEADER_LEN: usize = 4;

/// The header of a frame whose body has `body_len` bytes, or `None` where
/// that length cannot be written in 32 bits and the body cannot be sent.
pub fn frame_header(body_len: usize) -> (header: Option<Vec<u8>>)
    ensures
        header is Some <==> body_len <= u32::MAX,
        header matches Some(bytes) ==> bytes@ == spec_u32_to_le_bytes(body_len as u32),
        header matches Some(bytes) ==> bytes@.len() == FRAME_HEADER_LEN,
{
    if body_len > u32::MAX as usize {
        None
    } else {
        Some(u32_to_le_bytes(body_len as u32))
    }
}

/// The length of the body that a header announces.
pub fn frame_body_len(header: &[u8; 4]) -> (body_len: usize)
    ensures
        body_len == spec_u32_from_le_bytes(header@),
{
    u32_from_le_bytes(array_as_slice(header)) as usize
}

/// A header announces the length that it was made for.
pub proof fn lemma_frame_header_round_trip(body_len: u32)
    ensures
        spec_u32_to_le_bytes(body_len).len() == FRAME_HEADER_LEN,
        spec_u32_from_le_bytes(spec_u32_to_le_bytes(body_len)) == body_len,
{
    lemma_auto_spec_u32_to_from_le_bytes();
    assert(spec_u32_to_le_bytes(body_len).len() == 4);
}

/// The order to start a process on another node.
#[derive(Clone, Debug, PartialEq, Eq)]
pub struct Spawn {
    pub environment_id: u64,
    pub module_id: u64,
    pub function: String,
    pub params: Vec<Val>,
    pub config: Vec<u8>,
}

/// A spawn order as plain values.
pub struct SpawnView {
    pub environment_id: u64,
    pub module_id: u64,
    pub function: Seq<char>,
    pub params: Seq<Val>,
    pub config: Seq<u8>,
}

impl View for Spawn {
    type V = SpawnView;

    open spec fn view(&self) -> SpawnView {
        SpawnView {
            environment_id: self.environment_id,
            module_id: self.module_id,
            function: self.function@,
            params: self.params@,
            config: self.config@,
        }
    }
}

/// A request from one node to another.
#[derive(Clone, Debug, PartialEq, Eq)]
pub enum Request {
    /// Start a process. Answered with `Response::Spawned`.
    Spawn(Spawn),
    /// Hand a data message to a process. Not answered.
    Message { environment_id: u64, process_id: u64, tag: Option<i64>, data: Vec<u8> },
}

/// A request as plain values.
pub enum RequestView {
    Spawn(SpawnView),
    Message { environment_id: u64, process_id: u64, tag: Option<i64>, data: Seq<u8> },
}

impl View for Request {
    type V = RequestView;

    open spec fn view(&self) -> RequestView {
        match *self {
            Request::Spawn(spawn) => RequestView::Spawn(spawn@),
            Request::Message { environment_id, process_id, tag, data } => RequestView::Message {
                environment_id,
                process_id,
                tag,
                data: data@,
            },
        }
    }
}

/// The answer to a request.
#[derive(Clone, Copy, Debug, PartialEq, Eq, Structural)]
pub enum Response {
    /// The process was started and has this id.
    Spawned(u64),
}

/// A response on its way back, under the id of the request that it answers.
#[derive(Clone, Copy, Debug, PartialEq, Eq, Structural)]
pub struct Reply {
    pub msg_id: u64,
    pub response: Response,
}

} // verus!

//! The core protocol's `QueryExtension` request and reply.

use crate::request::{BreadError, RequestInfo, MAX_EXTENSION_NAME};
use crate::tiny::{set_byte, tiny_bytes, zeroed_bytes};
use crate::wire::{le16, le32, read_u32_le, with_length, zeros};
use vstd::prelude::*;
use vstd::string::StringSliceAdditionalSpecFns;

verus! {

/// The opcode of `QueryExtension`.
pub const QUERY_EXTENSION_OPCODE: u8 = 98;

/// The server's answer to `QueryExtension`.
#[derive(Clone, Copy, Debug, PartialEq, Eq, Structural)]
pub struct QueryExtensionReply {
    pub present: bool,
    pub major_opcode: u8,
    pub first_event: u8,
    pub first_error: u8,
}

/// The body of a `QueryExtension` request for `name`, before padding: the name's
/// length in bytes 4 and 5, then two unused bytes, then the name.
pub open spec fn query_extension_body(name: Seq<u8>) -> Seq<u8> {
    zeros(8).update(0, QUERY_EXTENSION_OPCODE).update(4, (name.len() % 0x100) as u8).update(
        5,
        (name.len() / 0x100) as u8,
    ) + name
}

/// The `QueryExtension` request for `name`, with its length in place.
pub fn query_extension_request(name: &'static str) -> (r: RequestInfo)
    requires
        name.spec_bytes().len() <= MAX_EXTENSION_NAME,
    ensures
        tiny_bytes(r.data) == with_length(query_extension_body(name.spec_bytes())),
        r.opcode == QUERY_EXTENSION_OPCODE,
        r.extension.is_none(),
        !r.expects_fds,
        r.fds@.len() == 0,
        r.sequence.is_none(),
        r.wf(),
{
    let b = name.as_bytes();
    let n = b.len();
    let mut body = zeroed_bytes(8 + n);
    set_byte(&mut body, 0, QUERY_EXTENSION_OPCODE);
    set_byte(&mut body, 4, (n % 0x100) as u8);
    set_byte(&mut body, 5, (n / 0x100) as u8);
    let mut i: usize = 0;
    while i < n
        invariant
            n == b@.len(),
            b@ == name.spec_bytes(),
            n <= MAX_EXTENSION_NAME,
            i <= n,
            tiny_bytes(body).len() == 8 + n,
            tiny_bytes(body).take(8) == zeros(8).update(0, QUERY_EXTENSION_OPCODE).update(
                4,
                (n % 0x100) as u8,
            ).update(5, (n / 0x100) as u8),
            forall|j: int| 0 <= j < i ==> tiny_bytes(body)[8 + j] == b@[j],
        decreases n - i,
    {
        let ghost before = tiny_bytes(body);
        set_byte(&mut body, 8 + i, b[i]);
        assert(tiny_bytes(body).take(8) =~= before.take(8));
        i = i + 1;
    }
    assert(tiny_bytes(body) =~= query_extension_body(name.spec_bytes())) by {
        assert(tiny_bytes(body) =~= tiny_bytes(body).take(8) + b@);
    }
    let r = RequestInfo::from_body(body, 8 + n, QUERY_EXTENSION_OPCODE, None, false);
    assert(tiny_bytes(body).take((8 + n) as int) =~= tiny_bytes(body));
    r
}

/// What a frame from the server says in answer to `QueryExtension`: an X11 error
/// (tag 0), or a reply (tag 1) of at least 32 bytes; anything else is malformed.
pub open spec fn query_extension_answer(data: Seq<u8>) -> Result<QueryExtensionReply, BreadError> {
    if data.len() < 32 {
        Err(BreadError::BadReply)
    } else if data[0] == 0 {
        Err(
            BreadError::ServerError {
                code: data[1],
                sequence: le16(data, 2) as u16,
                resource_id: le32(data, 4) as u32,
                minor: le16(data, 8) as u16,
                major: data[10],
            },
        )
    } else if data[0] != 1 {
        Err(BreadError::BadReply)
    } else {
        Ok(
            QueryExtensionReply {
                present: data[8] != 0,
                major_opcode: data[9],
                first_event: data[10],
                first_error: data[11],
            },
        )
    }
}

/// Decodes the server's answer to `QueryExtension`.
pub fn decode_query_extension_reply(data: &[u8]) -> (r: Result<QueryExtensionReply, BreadError>)
    ensures
        r == query_extension_answer(data@),
{
    if data.len() < 32 {
        Err(BreadError::BadReply)
    } else if data[0] == 0 {
        Err(
            BreadError::ServerError {
                code: data[1],
                sequence: data[2] as u16 + data[3] as u16 * 0x100,
                resource_id: read_u32_le(data, 4),
                minor: data[8] as u16 + data[9] as u16 * 0x100,
                major: data[10],
            },
        )
    } else if data[0] != 1 {
        Err(BreadError::BadReply)
    } else {
        Ok(
            QueryExtensionReply {
                present: data[8] != 0,
                major_opcode: data[9],
                first_event: data[10],
                first_error: data[11],
            },
        )
    }
}

} // verus!

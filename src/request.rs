//! Requests on their way to the server, and the errors of the core.

use crate::tiny::{resize_bytes, set_byte, tiny_bytes, Bytes};
use crate::wire::{pad4, with_length, with_opcode, zeros};
use vstd::prelude::*;
use vstd::string::StringSliceAdditionalSpecFns;

verus! {

/// A file descriptor passed alongside the bytes.
pub type Fd = i32;

/// An error of the request/reply core.
#[derive(Debug)]
pub enum BreadError {
    /// The server does not know the named extension.
    ExtensionNotPresent(String),
    /// The connection failed; the text describes why.
    Io(String),
    /// A reply did not have the shape its request calls for.
    BadReply,
    /// The server answered a request with an X11 error.
    ServerError { code: u8, sequence: u16, resource_id: u32, minor: u16, major: u8 },
}

/// A protocol workaround to apply to the reply of a request.
#[derive(Clone, Copy, Debug, PartialEq, Eq, Structural)]
pub enum RequestWorkaround {
    NoWorkaround,
    /// The reply's length field counts eight-byte units instead of four.
    GlxFbconfigBug,
}

/// What the core remembers of a request until its reply comes.
#[derive(Clone, Copy, Debug, PartialEq, Eq, Structural)]
pub struct PendingRequestFlags {
    pub expects_fds: bool,
    pub workaround: RequestWorkaround,
}

/// A request ready to be sent: its bytes, with the length in place and the
/// opcode bytes still to be written, and what travels with them.
pub struct RequestInfo {
    pub data: Bytes,
    pub fds: Vec<Fd>,
    pub opcode: u8,
    pub extension: Option<&'static str>,
    pub expects_fds: bool,
    /// The sequence number, once the display has assigned one.
    pub sequence: Option<u64>,
}

/// The greatest request length, in bytes, that the 16-bit length field can state.
pub const MAX_REQUEST_BYTES: usize = 0x3_fffc;

impl RequestInfo {
    /// A request can be framed: a whole number of four-byte units, at least one,
    /// that the length field can count, and an extension name that a
    /// `QueryExtension` request can carry.
    pub open spec fn wf(&self) -> bool {
        &&& tiny_bytes(self.data).len() >= 4
        &&& tiny_bytes(self.data).len() % 4 == 0
        &&& tiny_bytes(self.data).len() <= MAX_REQUEST_BYTES
        &&& match self.extension {
            Some(n) => n.spec_bytes().len() <= MAX_EXTENSION_NAME,
            None => true,
        }
    }

    /// A request from the first `len` bytes that its codec wrote into `body`:
    /// padded with zeros to a multiple of four bytes, with its length in place.
    pub fn from_body(
        body: Bytes,
        len: usize,
        opcode: u8,
        extension: Option<&'static str>,
        expects_fds: bool,
    ) -> (r: RequestInfo)
        requires
            0 < len <= tiny_bytes(body).len(),
            len <= MAX_REQUEST_BYTES,
        ensures
            tiny_bytes(r.data) == with_length(tiny_bytes(body).take(len as int)),
            r.fds@.len() == 0,
            r.opcode == opcode,
            r.extension == extension,
            r.expects_fds == expects_fds,
            r.sequence.is_none(),
    {
        let mut data = body;
        pad_with_length(&mut data, len);
        RequestInfo { data, fds: Vec::new(), opcode, extension, expects_fds, sequence: None }
    }
}

/// The longest extension name that a `QueryExtension` request can carry: its
/// length travels in a 16-bit field.
pub const MAX_EXTENSION_NAME: usize = 0xffff;

/// Keeps the first `len` bytes, pads them with zeros to a multiple of four and
/// writes the length in four-byte units into bytes 2 and 3.
pub fn pad_with_length(data: &mut Bytes, len: usize)
    requires
        0 < len <= tiny_bytes(*old(data)).len(),
        len <= MAX_REQUEST_BYTES,
    ensures
        tiny_bytes(*final(data)) == with_length(tiny_bytes(*old(data)).take(len as int)),
{
    let ghost body = tiny_bytes(*data).take(len as int);
    resize_bytes(data, len, 0);
    let rem = len % 4;
    let padded: usize = if rem == 0 {
        len
    } else {
        len + (4 - rem)
    };
    resize_bytes(data, padded, 0);
    assert(padded == pad4(len as nat));
    let ghost p = body + zeros((pad4(body.len()) - body.len()) as nat);
    assert(tiny_bytes(*data) =~= p);
    let units: usize = padded / 4;
    set_byte(data, 2, (units % 0x100) as u8);
    set_byte(data, 3, (units / 0x100) as u8);
    assert(tiny_bytes(*data) =~= with_length(body));
}

/// Writes the opcode bytes: the extension's major opcode and the request's opcode
/// after it, or the request's opcode alone.
pub fn modify_for_opcode(data: &mut Bytes, opcode: u8, ext_opcode: Option<u8>)
    requires
        tiny_bytes(*old(data)).len() >= 2,
    ensures
        tiny_bytes(*final(data)) == with_opcode(tiny_bytes(*old(data)), opcode, ext_opcode),
{
    match ext_opcode {
        None => {
            set_byte(data, 0, opcode);
        },
        Some(e) => {
            set_byte(data, 0, e);
            set_byte(data, 1, opcode);
        },
    }
}

} // verus!

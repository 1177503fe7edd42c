//! Laws that relate several operations of the core.

use crate::conn::{AsyncConnection, Transport};
use crate::display::Display;
use crate::request::{RequestInfo, RequestWorkaround};
use crate::tiny::tiny_bytes;
use crate::send::{ext_key, filed, SendBuffer, Step};
use crate::request::BreadError;
use crate::wire::{extra_len, is_glx, le32, pad4, with_length};
use crate::xproto::query_extension_answer;
use vstd::prelude::*;
use vstd::string::StringSliceAdditionalSpecFns;

verus! {

/// The bytes that pad a request to a multiple of four are zeros.
pub proof fn lemma_padding_is_zero(body: Seq<u8>, i: int)
    requires
        body.len() <= i < pad4(body.len()),
    ensures
        with_length(body).len() == pad4(body.len()),
        i >= 4 ==> with_length(body)[i] == 0,
{
}

/// For a reply tagged with the GLX fix the bytes to read are eight per unit of
/// the length field, for any other frame four.
pub proof fn lemma_glx_doubles_extra_bytes(header: Seq<u8>)
    requires
        header.len() >= 8,
    ensures
        extra_len(header, true) == 2 * extra_len(header, false),
        header[0] == 1 ==> extra_len(header, false) == 4 * (header[4] as int + header[5] as int
            * 0x100 + header[6] as int * 0x10000 + header[7] as int * 0x1000000),
{
}

/// Once the reply to a request has been taken from a display, taking it again
/// gives nothing, and no other reply is lost on the way.
pub proof fn lemma_reply_delivered_once(d0: Display, d1: Display, sequence: u64)
    requires
        d1.pending_replies() == d0.pending_replies().remove(sequence),
    ensures
        !d1.pending_replies().contains_key(sequence),
        forall|k: u64|
            k != sequence ==> (#[trigger] d1.pending_replies().contains_key(k)
                <==> d0.pending_replies().contains_key(k)),
{
}

/// Requests numbered one after another get increasing sequence numbers, and
/// the table keeps the first while filing the second.
pub proof fn lemma_sequences_increase(
    d0: Display,
    d1: Display,
    d2: Display,
    first: RequestInfo,
    second: RequestInfo,
)
    requires
        filed(d0, d1, first),
        filed(d1, d2, second),
    ensures
        d0.next_sequence() < d1.next_sequence() < d2.next_sequence(),
        d2.pending_requests().contains_key(d0.next_sequence()),
        d2.pending_requests().contains_key(d1.next_sequence()),
{
}

/// A submission whose extension's opcode is cached goes straight to sending,
/// taking one sequence number and sending no `QueryExtension`.
pub proof fn lemma_cached_extension_needs_no_query<C: AsyncConnection>(
    s0: SendBuffer,
    s1: SendBuffer,
    d0: Display,
    d1: Display,
    c0: Transport<C>,
    c1: Transport<C>,
    r: Step<Result<(), BreadError>>,
)
    requires
        SendBuffer::init_step(s0, s1, d0, d1, c0, c1, r),
        s0 matches SendBuffer::Uninit(req) && req.extension is Some && d0.extensions().contains_key(
            ext_key(req),
        ),
    ensures
        s1 is Init,
        d1.next_sequence() == d0.next_sequence() + 1,
{
}

/// Once the server reports an extension present, its opcode is cached, so
/// later submissions for it send no `QueryExtension`.
pub proof fn lemma_query_success_caches<C: AsyncConnection>(
    s0: SendBuffer,
    s1: SendBuffer,
    d0: Display,
    d1: Display,
    c0: Transport<C>,
    c1: Transport<C>,
    r: Step<Result<(), BreadError>>,
)
    requires
        SendBuffer::init_step(s0, s1, d0, d1, c0, c1, r),
        s0 is WaitingForExt,
        d0.pending_replies().contains_key(s0->WaitingForExt_1),
        query_extension_answer(tiny_bytes(d0.pending_replies()[s0->WaitingForExt_1].data)) matches Ok(q)
            && q.present,
    ensures
        s1 is Init,
        d1.extensions().contains_key(ext_key(s0->WaitingForExt_0)),
{
}

/// A step never takes a submission back to an earlier stage: it moves on,
/// stays, or ends with the buffer empty.
pub proof fn lemma_step_never_goes_back<C: AsyncConnection>(
    s0: SendBuffer,
    s1: SendBuffer,
    d0: Display,
    d1: Display,
    c0: Transport<C>,
    c1: Transport<C>,
    r: Step<Result<(), BreadError>>,
)
    requires
        SendBuffer::init_step(s0, s1, d0, d1, c0, c1, r),
    ensures
        s1 is Hole || s1.rank() >= s0.rank(),
        r is Again && !(s0 is WaitingForExt) ==> s1.rank() > s0.rank(),
{
}

/// A GLX `VendorPrivate` request whose bytes 32..36 read `0x10004`, and any
/// GLX `GetFBConfigs`, is filed with the GLX length fix.
pub proof fn lemma_glx_requests_are_tagged(d0: Display, d1: Display, req: RequestInfo)
    requires
        filed(d0, d1, req),
        req.extension matches Some(n) && is_glx(n.spec_bytes()),
        req.opcode == 21 || (req.opcode == 17 && tiny_bytes(req.data).len() >= 36 && le32(
            tiny_bytes(req.data),
            32,
        ) == 0x10004),
    ensures
        d1.pending_requests()[d0.next_sequence()].workaround == RequestWorkaround::GlxFbconfigBug,
        d1.glx_pending(d0.next_sequence()),
{
}

} // verus!

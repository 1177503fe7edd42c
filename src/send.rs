//! The send side: one buffer per submission, which resolves the extension's
//! major opcode (through `QueryExtension` where it is not cached) and then
//! writes the request's bytes until all are sent.

use crate::conn::{AsyncConnection, Poll, Transport};
use crate::display::{ext_bytes, flags_for, frame_filed, Display};
use crate::request::{BreadError, RequestInfo};
use crate::tiny::{bytes_slice, empty_bytes, split_bytes_off, tiny_bytes};
use crate::wait::WaitBuffer;
use crate::wire::{key_of, needs_glx_fix, string_as_array_bytes, with_length, with_opcode};
use crate::xproto::{
    decode_query_extension_reply, query_extension_answer, query_extension_body,
    query_extension_request, QUERY_EXTENSION_OPCODE,
};
use crate::request::modify_for_opcode;
use vstd::prelude::*;
use vstd::string::StringSliceAdditionalSpecFns;

verus! {

/// The result of one step of a state machine that may have to wait.
pub enum Step<T> {
    Ready(T),
    /// Nothing more can happen until the transport is ready again.
    Pending,
    /// The machine moved on; step it again.
    Again,
}

/// Whether the opcode bytes have been written into a request's data yet.
#[derive(Clone, Copy, Debug)]
enum Opcode {
    Implemented,
    /// To be written, with the extension's major opcode where there is one.
    NotImplemented(Option<u8>),
}

/// A request on its way out: the bytes not yet sent, and whether its opcode
/// bytes are written.
///
/// Dropping one while bytes remain would leave half a request on the wire and
/// put the stream out of step. The state machines here never do: a buffer
/// leaves `SendBuffer` only once its bytes are all sent or the connection has
/// failed. A driver that abandons a submission part way must give up the
/// connection with it; the drivers of this library poll each submission to the
/// end and hold the display exclusively until then.
pub struct InnerSendBuffer {
    request: RequestInfo,
    complete: bool,
    impl_opcode: Opcode,
}

/// A request with no bytes and no sequence number.
fn empty_request() -> (r: RequestInfo)
    ensures
        tiny_bytes(r.data).len() == 0,
        r.sequence.is_none(),
{
    RequestInfo {
        data: empty_bytes(),
        fds: Vec::new(),
        opcode: 0,
        extension: None,
        expects_fds: false,
        sequence: None,
    }
}

impl InnerSendBuffer {
    /// The request being sent, its data being the bytes not yet sent.
    pub closed spec fn request(&self) -> RequestInfo {
        self.request
    }

    /// The request's bytes not yet sent.
    pub closed spec fn data(&self) -> Seq<u8> {
        tiny_bytes(self.request.data)
    }

    pub closed spec fn sequence(&self) -> Option<u64> {
        self.request.sequence
    }

    pub closed spec fn opcode(&self) -> u8 {
        self.request.opcode
    }

    /// `Some` while the opcode bytes are still to be written, holding the
    /// extension's major opcode where there is one.
    pub closed spec fn pending_opcode(&self) -> Option<Option<u8>> {
        match self.impl_opcode {
            Opcode::Implemented => None,
            Opcode::NotImplemented(o) => Some(o),
        }
    }

    pub closed spec fn is_complete(&self) -> bool {
        self.complete
    }

    pub open spec fn wf(&self) -> bool {
        self.pending_opcode() is Some ==> self.data().len() >= 2
    }

    /// The bytes that go on the wire from here on.
    pub open spec fn wire_bytes(&self) -> Seq<u8> {
        match self.pending_opcode() {
            Some(o) => with_opcode(self.data(), self.opcode(), o),
            None => self.data(),
        }
    }

    /// A buffer for a request whose sequence number is assigned, with the
    /// extension's major opcode where there is one.
    pub fn new_internal(request: RequestInfo, opcode: Option<u8>) -> (r: Self)
        ensures
            r.request() == request,
            r.data() == tiny_bytes(request.data),
            r.sequence() == request.sequence,
            r.opcode() == request.opcode,
            r.pending_opcode() == Some(opcode),
            !r.is_complete(),
    {
        InnerSendBuffer { request, complete: false, impl_opcode: Opcode::NotImplemented(opcode) }
    }

    /// Writes the opcode bytes on the first poll, then sends what the
    /// connection takes; what it took is dropped from the front. Once all is
    /// sent the request is handed back, without its bytes.
    pub fn poll_send_request<C: AsyncConnection>(&mut self, conn: &mut Transport<C>) -> (r: Poll<
        Result<RequestInfo, BreadError>,
    >)
        requires
            old(self).wf(),
            !old(self).is_complete(),
        ensures
            final(self).wf(),
            final(self).pending_opcode() is None,
            final(self).data().len() <= old(self).wire_bytes().len(),
            final(conn).delivered() == old(conn).delivered(),
            match final(conn).last_send() {
                Poll::Pending => r is Pending,
                Poll::Ready(Ok(())) => r matches Poll::Ready(Ok(_)),
                Poll::Ready(Err(e)) => r == Poll::<Result<RequestInfo, BreadError>>::Ready(Err(e)),
            },
            r matches Poll::Ready(Ok(req)) ==> {
                &&& final(self).is_complete()
                &&& final(conn).sent() == old(conn).sent() + old(self).wire_bytes()
                &&& req.sequence == old(self).sequence()
                &&& req.opcode == old(self).opcode()
                &&& req.extension == old(self).request().extension
                &&& req.expects_fds == old(self).request().expects_fds
                &&& tiny_bytes(req.data).len() == 0
            },
            !(r matches Poll::Ready(Ok(_))) ==> {
                &&& !final(self).is_complete()
                &&& final(self).sequence() == old(self).sequence()
                &&& final(self).opcode() == old(self).opcode()
                &&& final(self).request().extension == old(self).request().extension
                &&& final(self).request().expects_fds == old(self).request().expects_fds
                &&& final(self).data() == old(self).wire_bytes().skip(
                    old(self).wire_bytes().len() - final(self).data().len(),
                )
                &&& final(conn).sent() == old(conn).sent() + old(self).wire_bytes().take(
                    old(self).wire_bytes().len() - final(self).data().len(),
                )
            },
    {
        if let Opcode::NotImplemented(opcode) = self.impl_opcode {
            let request_opcode = self.request.opcode;
            modify_for_opcode(&mut self.request.data, request_opcode, opcode);
            self.impl_opcode = Opcode::Implemented;
        }
        let ghost wire = tiny_bytes(self.request.data);
        let mut total_sent: usize = 0;
        let res = conn.poll_send_packet(
            bytes_slice(&self.request.data),
            &mut self.request.fds,
            &mut total_sent,
        );
        let rest = split_bytes_off(&mut self.request.data, total_sent);
        self.request.data = rest;
        assert(wire.take(total_sent as int) =~= wire.take(wire.len() - tiny_bytes(self.request.data).len()));
        match res {
            Poll::Pending => Poll::Pending,
            Poll::Ready(Err(e)) => Poll::Ready(Err(e)),
            Poll::Ready(Ok(())) => {
                let mut req = empty_request();
                core::mem::swap(&mut req, &mut self.request);
                self.complete = true;
                Poll::Ready(Ok(req))
            },
        }
    }
}

} // verus!

verus! {

/// The send side of a display: empty, or one submission in one of its stages.
pub enum SendBuffer {
    Hole,
    /// Taken by a submission that is being set up elsewhere.
    OccupiedHole,
    /// A request that has not begun.
    Uninit(RequestInfo),
    /// A request whose opcode is known, being sent.
    Init(InnerSendBuffer),
    /// A request waiting while `QueryExtension` for its extension is sent.
    PollingForExt(RequestInfo, InnerSendBuffer),
    /// A request waiting for the reply to `QueryExtension`, which has this
    /// sequence number.
    WaitingForExt(RequestInfo, u64, Option<WaitBuffer>),
}

impl Default for SendBuffer {
    /// An empty send buffer.
    fn default() -> (r: SendBuffer)
        ensures
            r is Hole,
    {
        SendBuffer::Hole
    }
}

/// The shape of a step's result, without the value of a success.
pub open spec fn step_kind<T>(r: Step<Result<T, BreadError>>) -> Step<Result<(), BreadError>> {
    match r {
        Step::Ready(Ok(_)) => Step::Ready(Ok(())),
        Step::Ready(Err(e)) => Step::Ready(Err(e)),
        Step::Pending => Step::Pending,
        Step::Again => Step::Again,
    }
}

/// One step of sending the bytes of `isb0`: the connection takes a prefix of
/// them; the buffer empties once all are taken, or on the connection's error.
pub open spec fn send_step<C: AsyncConnection>(
    isb0: InnerSendBuffer,
    s1: SendBuffer,
    c0: Transport<C>,
    c1: Transport<C>,
    r: Step<Result<(), BreadError>>,
) -> bool {
    &&& c1.delivered() == c0.delivered()
    &&& match c1.last_send() {
        Poll::Pending => r is Pending && (s1 matches SendBuffer::Init(isb) && isb.data()
            == isb0.wire_bytes().skip(isb0.wire_bytes().len() - isb.data().len()) && c1.sent()
            == c0.sent() + isb0.wire_bytes().take(isb0.wire_bytes().len() - isb.data().len())
            && isb.pending_opcode() is None && isb.sequence() == isb0.sequence() && isb.opcode()
            == isb0.opcode() && isb.request().extension == isb0.request().extension),
        Poll::Ready(Ok(())) => r == Step::<Result<(), BreadError>>::Ready(Ok(())) && s1 is Hole
            && c1.sent() == c0.sent() + isb0.wire_bytes(),
        Poll::Ready(Err(e)) => r == Step::<Result<(), BreadError>>::Ready(Err(e)) && s1 is Hole,
    }
}

/// The 24-byte key of a request's extension.
pub open spec fn ext_key(req: RequestInfo) -> Seq<u8> {
    key_of(req.extension->Some_0.spec_bytes())
}

/// What a display files for a request when it gives it the next sequence number.
pub open spec fn filed(d0: Display, d1: Display, req: RequestInfo) -> bool {
    &&& d1.next_sequence() == d0.next_sequence() + 1
    &&& d1.pending_requests() == d0.pending_requests().insert(
        d0.next_sequence(),
        flags_for(
            req.expects_fds,
            needs_glx_fix(ext_bytes(req.extension), req.opcode, tiny_bytes(req.data)),
        ),
    )
}

/// `isb` holds `req`, numbered as the next request of `d0`, with the opcode
/// bytes still to be written.
pub open spec fn started(isb: InnerSendBuffer, req: RequestInfo, d0: Display, op: Option<u8>) -> bool {
    &&& isb.data() == tiny_bytes(req.data)
    &&& isb.opcode() == req.opcode
    &&& isb.sequence() == Some(d0.next_sequence())
    &&& isb.pending_opcode() == Some(op)
    &&& !isb.is_complete()
}

impl SendBuffer {
    /// How far a submission has come.
    pub open spec fn rank(&self) -> int {
        match self {
            SendBuffer::Hole => 0,
            SendBuffer::OccupiedHole => 0,
            SendBuffer::Uninit(_) => 1,
            SendBuffer::PollingForExt(_, _) => 2,
            SendBuffer::WaitingForExt(_, _, _) => 3,
            SendBuffer::Init(_) => 4,
        }
    }

    pub open spec fn wf(&self) -> bool {
        match self {
            SendBuffer::Hole => true,
            SendBuffer::OccupiedHole => true,
            SendBuffer::Uninit(req) => req.wf(),
            SendBuffer::Init(isb) => isb.wf() && !isb.is_complete() && isb.sequence() is Some,
            SendBuffer::PollingForExt(req, isb) => req.wf() && req.extension is Some && isb.wf()
                && !isb.is_complete() && isb.sequence() is Some,
            SendBuffer::WaitingForExt(req, _, wb) => req.wf() && req.extension is Some && match wb {
                Some(w) => w.wf() && !w.is_complete(),
                None => true,
            },
        }
    }

    /// One step of setting a submission up, from `s0` to `s1`, while the display
    /// goes from `d0` to `d1`.
    pub open spec fn init_step<C: AsyncConnection>(
        s0: SendBuffer,
        s1: SendBuffer,
        d0: Display,
        d1: Display,
        c0: Transport<C>,
        c1: Transport<C>,
        r: Step<Result<(), BreadError>>,
    ) -> bool {
        &&& d1.wf()
        &&& s1.wf()
        &&& !(r matches Step::Ready(Ok(_)))
        &&& r is Ready ==> s1 is Hole
        &&& r is Pending ==> s1.rank() == s0.rank()
        &&& r is Again ==> s1.rank() > s0.rank() || (s0 is WaitingForExt && s1 is WaitingForExt)
        &&& match s0 {
            SendBuffer::Uninit(req) => r is Again && c1 == c0 && match req.extension {
                Some(name) if !d0.extensions().contains_key(ext_key(req)) => {
                    &&& s1 matches SendBuffer::PollingForExt(req1, isb) && req1 == req && isb.data()
                        == with_length(query_extension_body(name.spec_bytes())) && isb.opcode()
                        == QUERY_EXTENSION_OPCODE && isb.sequence() == Some(d0.next_sequence())
                        && isb.pending_opcode() == Some(None::<u8>)
                    &&& d1.next_sequence() == d0.next_sequence() + 1
                    &&& d1.extensions() == d0.extensions()
                },
                _ => {
                    &&& s1 matches SendBuffer::Init(isb) && started(
                        isb,
                        req,
                        d0,
                        match req.extension {
                            Some(_) => Some(d0.extensions()[ext_key(req)]),
                            None => None,
                        },
                    )
                    &&& filed(d0, d1, req)
                    &&& d1.extensions() == d0.extensions()
                },
            },
            SendBuffer::PollingForExt(req, isb0) => {
                &&& d1.next_sequence() == d0.next_sequence()
                &&& d1.extensions() == d0.extensions()
                &&& c1.delivered() == c0.delivered()
                &&& match c1.last_send() {
                    Poll::Pending => r is Pending && (s1 matches SendBuffer::PollingForExt(req1, _)
                        && req1 == req),
                    Poll::Ready(Ok(())) => r is Again && s1 == SendBuffer::WaitingForExt(
                        req,
                        isb0.sequence()->Some_0,
                        None,
                    ) && c1.sent() == c0.sent() + isb0.wire_bytes(),
                    Poll::Ready(Err(e)) => r == Step::<Result<(), BreadError>>::Ready(Err(e)),
                }
            },
            SendBuffer::WaitingForExt(req, seq, wb) => if d0.pending_replies().contains_key(seq) {
                &&& c1 == c0
                &&& d1.pending_replies() == d0.pending_replies().remove(seq)
                &&& match query_extension_answer(tiny_bytes(d0.pending_replies()[seq].data)) {
                    Ok(q) => if q.present {
                        &&& r is Again
                        &&& s1 matches SendBuffer::Init(isb) && started(
                            isb,
                            req,
                            d0,
                            Some(q.major_opcode),
                        )
                        &&& filed(d0, d1, req)
                        &&& d1.extensions() == if d0.extensions().contains_key(ext_key(req)) {
                            d0.extensions()
                        } else {
                            d0.extensions().insert(ext_key(req), q.major_opcode)
                        }
                    } else {
                        &&& d1.next_sequence() == d0.next_sequence()
                        &&& d1.extensions() == d0.extensions()
                        &&& r matches Step::Ready(Err(BreadError::ExtensionNotPresent(n))) && n@
                            == req.extension->Some_0@
                    },
                    Err(e) => r == Step::<Result<(), BreadError>>::Ready(Err(e))
                        && d1.next_sequence() == d0.next_sequence() && d1.extensions()
                        == d0.extensions(),
                }
            } else {
                &&& d1.next_sequence() == d0.next_sequence()
                &&& d1.extensions() == d0.extensions()
                &&& c1.sent() == c0.sent()
                &&& c1.last_read() matches Poll::Ready(Err(e)) ==> r == Step::<
                    Result<(), BreadError>,
                >::Ready(Err(e))
                &&& r is Pending ==> c1.last_read() is Pending
                &&& (c1.last_read() matches Poll::Ready(Ok(_))) ==> (r is Again || r
                    == Step::<Result<(), BreadError>>::Ready(Err(BreadError::BadReply)))
                &&& r is Again ==> s1 == SendBuffer::WaitingForExt(req, seq, None) && frame_filed(
                    d0,
                    d1,
                    match wb {
                        Some(w) => w.received(),
                        None => Seq::<u8>::empty(),
                    } + c1.delivered().skip(c0.delivered().len() as int),
                )
                &&& !(r is Ready) ==> (s1 matches SendBuffer::WaitingForExt(req1, seq1, _) && req1
                    == req && seq1 == seq)
            },
            _ => false,
        }
    }

    /// One step of a submission: sending, where its opcode is settled, and
    /// otherwise one step of setting it up.
    pub open spec fn step<C: AsyncConnection>(
        s0: SendBuffer,
        s1: SendBuffer,
        d0: Display,
        d1: Display,
        c0: Transport<C>,
        c1: Transport<C>,
        r: Step<Result<(), BreadError>>,
    ) -> bool {
        if s0 is Init {
            d1 == d0 && send_step(s0->Init_0, s1, c0, c1, r)
        } else {
            Self::init_step(s0, s1, d0, d1, c0, c1, r)
        }
    }

    /// An empty send buffer.
    pub fn new() -> (r: SendBuffer)
        ensures
            r is Hole,
    {
        SendBuffer::Hole
    }

    /// Begins a submission. Only an empty buffer can take one.
    pub fn fill_hole(&mut self, request_info: RequestInfo)
        requires
            *old(self) is Hole,
        ensures
            *final(self) == SendBuffer::Uninit(request_info),
    {
        *self = SendBuffer::Uninit(request_info);
    }

    /// Empties this buffer.
    pub fn dig_hole(&mut self)
        ensures
            *final(self) is Hole,
    {
        *self = SendBuffer::Hole;
    }

    /// One step of setting the submission up: look the extension up, send
    /// `QueryExtension` and wait for its reply where it is not cached, and
    /// number the request. On failure the buffer is left empty.
    fn poll_init<C: AsyncConnection>(&mut self, display: &mut Display, conn: &mut Transport<C>) -> (r: Step<
        Result<RequestInfo, BreadError>,
    >)
        requires
            old(self).wf(),
            old(display).wf(),
            old(display).next_sequence() < u64::MAX,
            !(*old(self) is Hole || *old(self) is OccupiedHole || *old(self) is Init),
        ensures
            Self::init_step(
                *old(self),
                *final(self),
                *old(display),
                *final(display),
                *old(conn),
                *final(conn),
                step_kind(r),
            ),
    {
        let mut state = SendBuffer::Hole;
        core::mem::swap(self, &mut state);
        match state {
            SendBuffer::Uninit(req) => {
                let mut req = req;
                match req.extension {
                    None => {
                        display.preprocess_request(&mut req);
                        *self = SendBuffer::Init(InnerSendBuffer::new_internal(req, None));
                        Step::Again
                    },
                    Some(extension) => {
                        let key = string_as_array_bytes(extension);
                        match display.get_extension_opcode(&key) {
                            Some(opcode) => {
                                display.preprocess_request(&mut req);
                                *self = SendBuffer::Init(
                                    InnerSendBuffer::new_internal(req, Some(opcode)),
                                );
                                Step::Again
                            },
                            None => {
                                let mut qer = query_extension_request(extension);
                                display.preprocess_request(&mut qer);
                                *self = SendBuffer::PollingForExt(
                                    req,
                                    InnerSendBuffer::new_internal(qer, None),
                                );
                                Step::Again
                            },
                        }
                    },
                }
            },
            SendBuffer::PollingForExt(req, sb) => {
                let mut sb = sb;
                match sb.poll_send_request(conn) {
                    Poll::Ready(Ok(pereq)) => {
                        let req_id = match pereq.sequence {
                            Some(s) => s,
                            None => {
                                proof {
                                    assert(false);
                                }
                                0
                            },
                        };
                        *self = SendBuffer::WaitingForExt(req, req_id, None);
                        Step::Again
                    },
                    Poll::Ready(Err(e)) => Step::Ready(Err(e)),
                    Poll::Pending => {
                        *self = SendBuffer::PollingForExt(req, sb);
                        Step::Pending
                    },
                }
            },
            SendBuffer::WaitingForExt(req, req_id, wait_buffer) => {
                let mut req = req;
                match display.take_pending_reply(req_id) {
                    Some(reply) => match decode_query_extension_reply(bytes_slice(&reply.data)) {
                        Err(e) => Step::Ready(Err(e)),
                        Ok(qer) => {
                            let extension = match req.extension {
                                Some(n) => n,
                                None => {
                                    proof {
                                        assert(false);
                                    }
                                    ""
                                },
                            };
                            if !qer.present {
                                Step::Ready(Err(BreadError::ExtensionNotPresent(extension.to_owned())))
                            } else {
                                display.set_extension_opcode(
                                    string_as_array_bytes(extension),
                                    qer.major_opcode,
                                );
                                display.preprocess_request(&mut req);
                                *self = SendBuffer::Init(
                                    InnerSendBuffer::new_internal(req, Some(qer.major_opcode)),
                                );
                                Step::Again
                            }
                        },
                    },
                    None => {
                        assert(display.pending_replies() =~= old(display).pending_replies());
                        let ghost wb0 = wait_buffer;
                        let ghost prior = match wb0 {
                            Some(w) => w.received(),
                            None => Seq::<u8>::empty(),
                        };
                        let mut wb = match wait_buffer {
                            Some(w) => w,
                            None => WaitBuffer::new(),
                        };
                        assert(wb.received() =~= prior);
                        let no_workarounds: Vec<u16> = Vec::new();
                        match wb.poll_wait(conn, no_workarounds.as_slice()) {
                            Poll::Pending => {
                                *self = SendBuffer::WaitingForExt(req, req_id, Some(wb));
                                Step::Pending
                            },
                            Poll::Ready(Err(e)) => Step::Ready(Err(e)),
                            Poll::Ready(Ok(ret)) => match display.process_bytes(ret.data, ret.fds) {
                                Ok(()) => {
                                    assert(prior + conn.delivered().skip(
                                        old(conn).delivered().len() as int,
                                    ) == tiny_bytes(ret.data));
                                    *self = SendBuffer::WaitingForExt(req, req_id, None);
                                    Step::Again
                                },
                                Err(e) => Step::Ready(Err(e)),
                            },
                        }
                    },
                }
            },
            _ => {
                proof {
                    assert(false);
                }
                Step::Pending
            },
        }
    }

    /// Steps the submission: sets it up (see `init_step`), then sends its bytes.
    /// Once they are all sent, or on failure, the buffer is left empty and the
    /// request (without its bytes) or the error is returned.
    pub fn poll_send_request<C: AsyncConnection>(
        &mut self,
        display: &mut Display,
        conn: &mut Transport<C>,
    ) -> (r: Step<Result<RequestInfo, BreadError>>)
        requires
            old(self).wf(),
            old(display).wf(),
            old(display).next_sequence() < u64::MAX,
            !(*old(self) is Hole || *old(self) is OccupiedHole),
        ensures
            final(self).wf(),
            final(display).wf(),
            r is Ready ==> *final(self) is Hole,
            !(r is Ready) ==> !(*final(self) is Hole || *final(self) is OccupiedHole),
            Self::step(
                *old(self),
                *final(self),
                *old(display),
                *final(display),
                *old(conn),
                *final(conn),
                step_kind(r),
            ),
            r matches Step::Ready(Ok(req)) ==> {
                let isb0 = old(self)->Init_0;
                &&& *old(self) is Init
                &&& req.sequence == isb0.sequence()
                &&& req.opcode == isb0.opcode()
                &&& req.extension == isb0.request().extension
                &&& req.expects_fds == isb0.request().expects_fds
                &&& tiny_bytes(req.data).len() == 0
            },
    {
        let mut state = SendBuffer::Hole;
        core::mem::swap(self, &mut state);
        match state {
            SendBuffer::Init(isb) => {
                let mut isb = isb;
                match isb.poll_send_request(conn) {
                    Poll::Pending => {
                        *self = SendBuffer::Init(isb);
                        Step::Pending
                    },
                    Poll::Ready(res) => Step::Ready(res),
                }
            },
            this => {
                let mut this = this;
                let res = this.poll_init(display, conn);
                *self = this;
                res
            },
        }
    }
}

} // verus!

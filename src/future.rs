//! A display with its connection and send buffer, and the future that sends
//! one raw request through it.

use crate::conn::{AsyncConnection, Transport};
use crate::display::Display;
use crate::request::{BreadError, RequestInfo};
use crate::send::{step_kind, SendBuffer, Step};
use vstd::prelude::*;

verus! {

/// A display together with its transport and the buffer of the submission in
/// flight.
pub struct RawDisplay<C> {
    pub display: Display,
    pub send_buffer: SendBuffer,
    pub connection: Transport<C>,
}

impl<C: AsyncConnection> RawDisplay<C> {
    pub open spec fn wf(&self) -> bool {
        self.display.wf() && self.send_buffer.wf()
    }

    /// A display over `connection` with nothing in flight.
    pub fn new(connection: C) -> (r: Self)
        ensures
            r.wf(),
            r.send_buffer is Hole,
            r.display.next_sequence() == 1,
    {
        RawDisplay { display: Display::new(), send_buffer: SendBuffer::new(), connection: Transport::new(connection) }
    }

    /// Begins sending a request; no other may be in flight.
    pub fn begin_send_request_raw(&mut self, request: RequestInfo)
        requires
            old(self).send_buffer is Hole,
        ensures
            final(self).send_buffer == SendBuffer::Uninit(request),
            final(self).display == old(self).display,
    {
        self.send_buffer.fill_hole(request);
    }

    /// Steps the request in flight; once it is sent, gives its sequence number
    /// as it stands on the wire.
    pub fn poll_send_request_raw(&mut self) -> (r: Step<Result<u16, BreadError>>)
        requires
            old(self).wf(),
            old(self).display.next_sequence() < u64::MAX,
            !(old(self).send_buffer is Hole || old(self).send_buffer is OccupiedHole),
        ensures
            final(self).wf(),
            r is Ready ==> final(self).send_buffer is Hole,
            !(r is Ready) ==> !(final(self).send_buffer is Hole || final(self).send_buffer is OccupiedHole),
            SendBuffer::step(
                old(self).send_buffer,
                final(self).send_buffer,
                old(self).display,
                final(self).display,
                old(self).connection,
                final(self).connection,
                step_kind(r),
            ),
            r matches Step::Ready(Ok(s)) ==> old(self).send_buffer is Init && s as int
                == old(self).send_buffer->Init_0.sequence()->Some_0 % 0x10000,
    {
        match self.send_buffer.poll_send_request(&mut self.display, &mut self.connection) {
            Step::Ready(Ok(req)) => {
                let seq = match req.sequence {
                    Some(s) => (s % 0x10000) as u16,
                    None => 0,
                };
                Step::Ready(Ok(seq))
            },
            Step::Ready(Err(e)) => Step::Ready(Err(e)),
            Step::Pending => Step::Pending,
            Step::Again => Step::Again,
        }
    }
}

/// Sends one raw request through a display, step by step.
pub struct SendRequestRawFuture<'a, C> {
    display: &'a mut RawDisplay<C>,
    is_finished: bool,
}

impl<'a, C: AsyncConnection> SendRequestRawFuture<'a, C> {
    /// Begins sending `request` through `display`.
    pub fn run(display: &'a mut RawDisplay<C>, request: RequestInfo) -> (r: Self)
        requires
            old(display).send_buffer is Hole,
        ensures
            r.target().send_buffer == SendBuffer::Uninit(request),
            r.target().display == old(display).display,
            !r.is_finished(),
    {
        display.begin_send_request_raw(request);
        SendRequestRawFuture { display, is_finished: false }
    }

    /// The display this future sends through.
    pub closed spec fn target(&self) -> RawDisplay<C> {
        *self.display
    }

    pub closed spec fn is_finished(&self) -> bool {
        self.is_finished
    }

    /// Steps the request; `Ready` comes once, with the request's sequence
    /// number on the wire or the error.
    pub fn poll(&mut self) -> (r: Step<Result<u16, BreadError>>)
        requires
            !old(self).is_finished(),
            old(self).target().wf(),
            old(self).target().display.next_sequence() < u64::MAX,
            !(old(self).target().send_buffer is Hole),
            !(old(self).target().send_buffer is OccupiedHole),
        ensures
            final(self).is_finished() <==> r is Ready,
            final(self).target().wf(),
            SendBuffer::step(
                old(self).target().send_buffer,
                final(self).target().send_buffer,
                old(self).target().display,
                final(self).target().display,
                old(self).target().connection,
                final(self).target().connection,
                step_kind(r),
            ),
            r matches Step::Ready(Ok(s)) ==> old(self).target().send_buffer is Init && s as int
                == old(self).target().send_buffer->Init_0.sequence()->Some_0 % 0x10000,
            !final(self).is_finished() ==> !(final(self).target().send_buffer is Hole
                || final(self).target().send_buffer is OccupiedHole),
    {
        let res = self.display.poll_send_request_raw();
        if let Step::Ready(_) = res {
            self.is_finished = true;
        }
        res
    }

    /// The sequence number the display gives its next request.
    pub fn request_number(&self) -> (r: u64)
        ensures
            r == self.target().display.next_sequence(),
    {
        self.display.display.request_number()
    }

    /// Gives back the display this future sends through.
    pub fn cannibalize(self) -> (r: &'a mut RawDisplay<C>)
        ensures
            *r == self.target(),
    {
        self.display
    }
}

} // verus!

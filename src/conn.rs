//! The transport as the core sees it, and the result of a poll.

use crate::request::{BreadError, Fd};
use vstd::prelude::*;

verus! {

/// The result of an operation that may have to wait for the transport.
pub enum Poll<T> {
    Ready(T),
    /// Nothing more can happen until the transport is ready again.
    Pending,
}

/// A duplex byte stream to the X server that can carry file descriptors.
/// Implementations arrange on their own to be woken when they can go on.
pub trait AsyncConnection {
    /// Sends bytes from the front of `bytes`, and `fds` with them, adding the
    /// number of bytes sent to `total_sent`. `Ready(Ok)` means all were sent.
    fn poll_send_packet(
        &mut self,
        bytes: &[u8],
        fds: &mut Vec<Fd>,
        total_sent: &mut usize,
    ) -> (r: Poll<Result<(), BreadError>>)
        ensures
            *old(total_sent) <= *final(total_sent) <= *old(total_sent) + bytes@.len(),
            r matches Poll::Ready(Ok(())) ==> *final(total_sent) == *old(total_sent)
                + bytes@.len(),
    ;

    /// Appends up to `want` bytes read from the server to `bytes`, and the
    /// descriptors that came with them to `fds`. `Ready(Ok)` means all `want`
    /// bytes have come.
    fn poll_read_packet(&mut self, bytes: &mut Vec<u8>, want: usize, fds: &mut Vec<Fd>) -> (r: Poll<
        Result<(), BreadError>,
    >)
        ensures
            old(bytes)@.len() <= final(bytes)@.len() <= old(bytes)@.len() + want,
            final(bytes)@.take(old(bytes)@.len() as int) == old(bytes)@,
            r matches Poll::Ready(Ok(())) ==> final(bytes)@.len() == old(bytes)@.len() + want,
            old(fds)@.len() <= final(fds)@.len(),
            final(fds)@.take(old(fds)@.len() as int) == old(fds)@,
    ;
}

/// A connection together with a record of what went through it: the bytes
/// handed over and taken in, and the last result of each direction.
pub struct Transport<C> {
    conn: C,
    sent: Ghost<Seq<u8>>,
    delivered: Ghost<Seq<u8>>,
    last_send: Ghost<Poll<Result<(), BreadError>>>,
    last_read: Ghost<Poll<Result<(), BreadError>>>,
    fds_delivered: Ghost<Seq<Fd>>,
}

impl<C: AsyncConnection> Transport<C> {
    /// Every byte the connection reported sent, in order.
    pub closed spec fn sent(&self) -> Seq<u8> {
        self.sent@
    }

    /// Every byte read from the connection, in order.
    pub closed spec fn delivered(&self) -> Seq<u8> {
        self.delivered@
    }

    /// Every file descriptor read from the connection, in order.
    pub closed spec fn fds_delivered(&self) -> Seq<Fd> {
        self.fds_delivered@
    }

    /// What the last send returned.
    pub closed spec fn last_send(&self) -> Poll<Result<(), BreadError>> {
        self.last_send@
    }

    /// What the last read returned.
    pub closed spec fn last_read(&self) -> Poll<Result<(), BreadError>> {
        self.last_read@
    }

    /// A transport over `conn`, with nothing sent or read yet.
    pub fn new(conn: C) -> (r: Self)
        ensures
            r.sent().len() == 0,
            r.delivered().len() == 0,
            r.last_send() is Pending,
            r.last_read() is Pending,
            r.fds_delivered().len() == 0,
    {
        Transport {
            conn,
            sent: Ghost(Seq::empty()),
            delivered: Ghost(Seq::empty()),
            last_send: Ghost(Poll::Pending),
            last_read: Ghost(Poll::Pending),
            fds_delivered: Ghost(Seq::empty()),
        }
    }

    /// The connection.
    pub fn get_ref(&self) -> &C {
        &self.conn
    }

    /// Sends bytes from the front of `bytes` through the connection.
    pub fn poll_send_packet(
        &mut self,
        bytes: &[u8],
        fds: &mut Vec<Fd>,
        total_sent: &mut usize,
    ) -> (r: Poll<Result<(), BreadError>>)
        ensures
            *old(total_sent) <= *final(total_sent) <= *old(total_sent) + bytes@.len(),
            r matches Poll::Ready(Ok(())) ==> *final(total_sent) == *old(total_sent)
                + bytes@.len(),
            final(self).sent() == old(self).sent() + bytes@.take(
                *final(total_sent) - *old(total_sent),
            ),
            final(self).last_send() == r,
            final(self).delivered() == old(self).delivered(),
            final(self).last_read() == old(self).last_read(),
            final(self).fds_delivered() == old(self).fds_delivered(),
    {
        let ghost before = *total_sent;
        let r = self.conn.poll_send_packet(bytes, fds, total_sent);
        self.sent = Ghost(self.sent@ + bytes@.take(*total_sent - before));
        self.last_send = Ghost(r);
        r
    }

    /// Appends up to `want` bytes read from the connection to `bytes`.
    pub fn poll_read_packet(&mut self, bytes: &mut Vec<u8>, want: usize, fds: &mut Vec<Fd>) -> (r:
        Poll<Result<(), BreadError>>)
        ensures
            old(bytes)@.len() <= final(bytes)@.len() <= old(bytes)@.len() + want,
            final(bytes)@.take(old(bytes)@.len() as int) == old(bytes)@,
            r matches Poll::Ready(Ok(())) ==> final(bytes)@.len() == old(bytes)@.len() + want,
            final(fds)@ == old(fds)@ + (final(self).fds_delivered().skip(
                old(self).fds_delivered().len() as int,
            )),
            final(self).fds_delivered() == old(self).fds_delivered() + final(fds)@.skip(
                old(fds)@.len() as int,
            ),
            final(self).delivered() == old(self).delivered() + final(bytes)@.skip(
                old(bytes)@.len() as int,
            ),
            final(self).last_read() == r,
            final(self).sent() == old(self).sent(),
            final(self).last_send() == old(self).last_send(),
    {
        let ghost before = bytes@;
        let ghost fds0 = fds@;
        let ghost d0 = self.fds_delivered@;
        let r = self.conn.poll_read_packet(bytes, want, fds);
        let ghost fresh = fds@.skip(fds0.len() as int);
        self.fds_delivered = Ghost(d0 + fresh);
        assert(self.fds_delivered@.skip(d0.len() as int) =~= fresh);
        assert(fds@.take(fds0.len() as int) == fds0);
        assert(fds@ =~= fds0 + fresh);
        self.delivered = Ghost(self.delivered@ + bytes@.skip(before.len() as int));
        self.last_read = Ghost(r);
        r
    }
}

} // verus!

//! Incremental reading of one frame from the server: 32 bytes, then the tail
//! that their length field announces.

use crate::conn::{AsyncConnection, Poll, Transport};
use crate::request::{BreadError, Fd};
use crate::tiny::{bytes_slice, empty_bytes, extend_bytes, tiny_bytes, Bytes};
use crate::wire::{additional_bytes, extra_len, le16};
use vstd::prelude::*;

verus! {

/// The bytes of a frame received so far, and where reading stands.
pub struct WaitBuffer {
    buffer: Bytes,
    fds: Vec<Fd>,
    first_read: bool,
    target: usize,
    glx: bool,
    complete: bool,
}

/// A frame received whole, with the file descriptors that came with it.
pub struct WaitBufferReturn {
    pub data: Bytes,
    pub fds: Vec<Fd>,
}

/// Whether a frame is a reply to one of the requests tagged for the GLX length fix.
pub open spec fn glx_tagged(tags: Seq<u16>, header: Seq<u8>) -> bool {
    header[0] == 1 && tags.contains(le16(header, 2) as u16)
}

/// Whether a frame, from its first 32 bytes, is longer than this machine can
/// address.
pub open spec fn too_large(tags: Seq<u16>, header: Seq<u8>) -> bool {
    header.len() >= 32 && 32 + extra_len(header, glx_tagged(tags, header)) > usize::MAX
}

/// Whether `tags` holds `seq`.
fn contains_tag(tags: &[u16], seq: u16) -> (r: bool)
    ensures
        r == tags@.contains(seq),
{
    let mut i: usize = 0;
    while i < tags.len()
        invariant
            i <= tags@.len(),
            forall|j: int| 0 <= j < i ==> tags@[j] != seq,
        decreases tags@.len() - i,
    {
        if tags[i] == seq {
            return true;
        }
        i = i + 1;
    }
    false
}

impl Default for WaitBuffer {
    /// A buffer about to read the first 32 bytes of a frame.
    fn default() -> (r: WaitBuffer)
        ensures
            r.wf(),
            !r.is_complete(),
            r.awaits_header(),
    {
        WaitBuffer::new()
    }
}

impl WaitBuffer {
    pub closed spec fn wf(&self) -> bool {
        &&& tiny_bytes(self.buffer).len() <= self.target
        &&& self.first_read ==> self.target == 32
        &&& !self.first_read ==> tiny_bytes(self.buffer).len() >= 32 && self.target == 32 + extra_len(
            tiny_bytes(self.buffer),
            self.glx,
        )
    }

    /// The bytes of the frame received so far.
    pub closed spec fn received(&self) -> Seq<u8> {
        tiny_bytes(self.buffer)
    }

    /// The file descriptors received so far with the frame.
    pub closed spec fn fds_received(&self) -> Seq<Fd> {
        self.fds@
    }

    /// Whether the first 32 bytes of the frame are still to come.
    pub closed spec fn awaits_header(&self) -> bool {
        self.first_read
    }

    /// Whether the frame's length field is read with the GLX fix; settled once
    /// its first 32 bytes have come.
    pub closed spec fn glx_fix(&self) -> bool {
        self.glx
    }

    /// Whether this buffer has delivered its frame or its error.
    pub closed spec fn is_complete(&self) -> bool {
        self.complete
    }

    /// A buffer about to read the first 32 bytes of a frame.
    pub fn new() -> (r: WaitBuffer)
        ensures
            r.wf(),
            !r.is_complete(),
            r.awaits_header(),
            r.received().len() == 0,
            r.fds_received().len() == 0,
    {
        WaitBuffer { buffer: empty_bytes(), fds: Vec::new(), first_read: true, target: 32, glx: false, complete: false }
    }

    /// Reads up to `want` more bytes of the frame, and the descriptors that
    /// come with them.
    fn read_into<C: AsyncConnection>(&mut self, conn: &mut Transport<C>, want: usize) -> (r: Poll<
        Result<(), BreadError>,
    >)
        ensures
            tiny_bytes(old(self).buffer).len() <= tiny_bytes(final(self).buffer).len()
                <= tiny_bytes(old(self).buffer).len() + want,
            tiny_bytes(final(self).buffer) == tiny_bytes(old(self).buffer) + final(conn).delivered().skip(
                old(conn).delivered().len() as int,
            ),
            r matches Poll::Ready(Ok(())) ==> tiny_bytes(final(self).buffer).len() == tiny_bytes(
                old(self).buffer,
            ).len() + want,
            final(self).fds@ == old(self).fds@ + final(conn).fds_delivered().skip(
                old(conn).fds_delivered().len() as int,
            ),
            final(conn).fds_delivered() == old(conn).fds_delivered() + final(self).fds@.skip(
                old(self).fds@.len() as int,
            ),
            final(conn).delivered() == old(conn).delivered() + tiny_bytes(final(self).buffer).skip(
                tiny_bytes(old(self).buffer).len() as int,
            ),
            final(conn).last_read() == r,
            final(conn).sent() == old(conn).sent(),
            final(conn).last_send() == old(conn).last_send(),
            final(self).first_read == old(self).first_read,
            final(self).target == old(self).target,
            final(self).glx == old(self).glx,
            final(self).complete == old(self).complete,
    {
        let mut chunk: Vec<u8> = Vec::new();
        let res = conn.poll_read_packet(&mut chunk, want, &mut self.fds);
        let ghost b0 = tiny_bytes(self.buffer);
        extend_bytes(&mut self.buffer, chunk.as_slice());
        assert(chunk@.skip(0) =~= chunk@);
        assert(tiny_bytes(self.buffer).skip(b0.len() as int) =~= chunk@);
        res
    }

    fn complete(&mut self)
        ensures
            final(self).is_complete(),
            final(self).wf() == old(self).wf(),
    {
        self.complete = true;
    }

    fn finish(&mut self) -> (r: WaitBufferReturn)
        ensures
            tiny_bytes(r.data) == tiny_bytes(old(self).buffer),
            r.fds@ == old(self).fds@,
            final(self).is_complete(),
            final(self).wf(),
    {
        let mut data = empty_bytes();
        core::mem::swap(&mut data, &mut self.buffer);
        let mut fds: Vec<Fd> = Vec::new();
        core::mem::swap(&mut fds, &mut self.fds);
        self.target = 32;
        self.first_read = true;
        self.complete = true;
        WaitBufferReturn { data, fds }
    }

    /// Reads from the connection. Once 32 bytes have come, their length field
    /// (doubled for a reply whose sequence number is in `workarounders`) tells how
    /// many more to read. `Ready` is given once, with the whole frame or an error.
    #[verifier::rlimit(40)]
    pub fn poll_wait<C: AsyncConnection>(&mut self, conn: &mut Transport<C>, workarounders: &[u16]) -> (r: Poll<
        Result<WaitBufferReturn, BreadError>,
    >)
        requires
            old(self).wf(),
            !old(self).is_complete(),
        ensures
            final(self).wf(),
            r is Pending <==> !final(self).is_complete(),
            r matches Poll::Ready(Ok(ret)) ==> tiny_bytes(ret.data).len() >= 32 && tiny_bytes(ret.data).len() == 32
                + extra_len(
                tiny_bytes(ret.data),
                if old(self).awaits_header() {
                    glx_tagged(workarounders@, tiny_bytes(ret.data))
                } else {
                    old(self).glx_fix()
                },
            ),
            r matches Poll::Ready(Ok(ret)) ==> tiny_bytes(ret.data) == old(self).received() + final(conn).delivered().skip(old(conn).delivered().len() as int),
            r is Pending ==> final(self).received() == old(self).received() + final(conn).delivered().skip(old(conn).delivered().len() as int),
            final(conn).last_read() matches Poll::Ready(Err(e)) ==> r == Poll::<
                Result<WaitBufferReturn, BreadError>,
            >::Ready(Err(e)),
            final(conn).sent() == old(conn).sent(),
            final(conn).last_send() == old(conn).last_send(),
            r is Pending ==> final(conn).last_read() is Pending,
            final(conn).last_read() matches Poll::Ready(Ok(())) ==> r matches Poll::Ready(Ok(_))
                || too_large(workarounders@, final(self).received()),
            r matches Poll::Ready(Err(e)) ==> final(conn).last_read() == Poll::<
                Result<(), BreadError>,
            >::Ready(Err(e)) || (e is BadReply && (final(conn).last_read() matches Poll::Ready(Ok(_)))
                && too_large(workarounders@, final(self).received())),
            r matches Poll::Ready(Ok(ret)) ==> ret.fds@ == old(self).fds_received() + final(
                conn).fds_delivered().skip(old(conn).fds_delivered().len() as int),
            r is Pending ==> final(self).fds_received() == old(self).fds_received() + final(
                conn).fds_delivered().skip(old(conn).fds_delivered().len() as int),
            r is Pending && old(self).awaits_header() && !final(self).awaits_header() ==> final(self).glx_fix()
                == glx_tagged(workarounders@, final(self).received()),
    {
        let ghost buf0 = tiny_bytes(self.buffer);
        let ghost del0 = conn.delivered();
        let ghost fds0 = self.fds@;
        let ghost fdel0 = conn.fds_delivered();
        if self.first_read {
            let want = self.target - bytes_slice(&self.buffer).len();
            let res = self.read_into(conn, want);
            assert(self.fds@ =~= fds0 + conn.fds_delivered().skip(fdel0.len() as int));
            match res {
                Poll::Pending => return Poll::Pending,
                Poll::Ready(Err(e)) => {
                    self.complete();
                    return Poll::Ready(Err(e));
                },
                Poll::Ready(Ok(())) => {},
            }
            assert(tiny_bytes(self.buffer) =~= buf0 + conn.delivered().skip(del0.len() as int));
            let head_bytes = bytes_slice(&self.buffer);
            let short = head_bytes[2] as u16 + head_bytes[3] as u16 * 0x100;
            let glx = head_bytes[0] == 1 && contains_tag(workarounders, short);
            assert(glx == glx_tagged(workarounders@, tiny_bytes(self.buffer)));
            assert(tiny_bytes(self.buffer).take(8)[0] == tiny_bytes(self.buffer)[0]);
            let header = vstd::slice::slice_subrange(head_bytes, 0, 8);
            match additional_bytes(header, glx) {
                None => {
                    proof {
                        assert(extra_len(header@, glx) == extra_len(tiny_bytes(self.buffer), glx));
                    }
                    self.first_read = false;
                    self.glx = glx;
                    return Poll::Ready(Ok(self.finish()));
                },
                Some(ab) => {
                    assert(extra_len(header@, glx) == extra_len(tiny_bytes(self.buffer), glx));
                    if ab > (usize::MAX - 32) as u64 {
                        // a frame larger than this machine can address
                        assert(too_large(workarounders@, tiny_bytes(self.buffer)));
                        self.complete = true;
                        return Poll::Ready(Err(BreadError::BadReply));
                    }
                    self.target = 32 + ab as usize;
                    self.glx = glx;
                    self.first_read = false;
                },
            }
        }
        let ghost g = self.glx;
        let ghost head = tiny_bytes(self.buffer);
        let ghost del1 = conn.delivered();
        assert(head =~= buf0 + del1.skip(del0.len() as int));
        let want = self.target - bytes_slice(&self.buffer).len();
        let ghost del1x = conn.delivered();
        let ghost fds1 = self.fds@;
        let ghost fdel1 = conn.fds_delivered();
        assert(fds1 =~= fds0 + fdel1.skip(fdel0.len() as int));
        let res = self.read_into(conn, want);
        assert(conn.delivered().skip(del0.len() as int) =~= del1x.skip(del0.len() as int)
            + conn.delivered().skip(del1x.len() as int));
        assert(conn.fds_delivered().skip(fdel0.len() as int) =~= fdel1.skip(fdel0.len() as int)
            + conn.fds_delivered().skip(fdel1.len() as int));
        assert(self.fds@ =~= fds0 + conn.fds_delivered().skip(fdel0.len() as int));
        match res {
            Poll::Pending => {
                assert(tiny_bytes(self.buffer).take(head.len() as int) == head);
                assert forall|i: int| 0 <= i < 8 implies tiny_bytes(self.buffer)[i] == head[i] by {
                    assert(tiny_bytes(self.buffer).take(head.len() as int)[i] == tiny_bytes(self.buffer)[i]);
                }
                assert(extra_len(tiny_bytes(self.buffer), g) == extra_len(head, g));
                assert(le16(tiny_bytes(self.buffer), 2) == le16(head, 2));
                assert(tiny_bytes(self.buffer) =~= buf0 + conn.delivered().skip(del0.len() as int));
                Poll::Pending
            },
            Poll::Ready(Err(e)) => {
                self.complete();
                Poll::Ready(Err(e))
            },
            Poll::Ready(Ok(())) => {
                assert(tiny_bytes(self.buffer).take(head.len() as int) == head);
                assert forall|i: int| 0 <= i < 8 implies tiny_bytes(self.buffer)[i] == head[i] by {
                    assert(tiny_bytes(self.buffer).take(head.len() as int)[i] == tiny_bytes(self.buffer)[i]);
                }
                assert(extra_len(tiny_bytes(self.buffer), g) == extra_len(head, g));
                assert(tiny_bytes(self.buffer) =~= buf0 + conn.delivered().skip(del0.len() as int));
                Poll::Ready(Ok(self.finish()))
            },
        }
    }
}

} // verus!

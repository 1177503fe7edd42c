//! The protocol state that a display owns: the sequence counter, the
//! pending-request table, the replies not yet taken, the events not yet
//! read and the extension registry.

use crate::registry::ExtensionRegistry;
use crate::request::{
    modify_for_opcode, BreadError, Fd, PendingRequestFlags, RequestInfo, RequestWorkaround,
};
use crate::tiny::{bytes_slice, tiny_bytes, Bytes};
use crate::wire::{
    glx_workaround, key_of, le16, needs_glx_fix, string_as_array_bytes, widen_sequence, widened,
    with_opcode, EXT_KEY_SIZE,
};
use crate::xproto::QueryExtensionReply;
use std::collections::BTreeMap;
use vstd::prelude::*;
use vstd::string::StringSliceAdditionalSpecFns;

verus! {

broadcast use vstd::std_specs::btree::group_btree_axioms;

/// A reply (or error) from the server, waiting to be taken.
pub struct PendingReply {
    pub data: Bytes,
    pub fds: Vec<Fd>,
}

/// The outcome of one step of resolving an extension's major opcode.
pub enum ExtLookup {
    /// The major opcode.
    Known(u8),
    /// The extension cannot be used.
    Failed(BreadError),
    /// Nothing is cached: send `QueryExtension` and step again with its answer.
    Query,
}

/// The protocol state of one connection to an X server.
pub struct Display {
    request_number: u64,
    pending_requests: BTreeMap<u64, PendingRequestFlags>,
    pending_replies: BTreeMap<u64, PendingReply>,
    events: Vec<Bytes>,
    extensions: ExtensionRegistry,
    last_read: u64,
    glx_sequences: Vec<u64>,
}

/// The pending entries that a reply to `seq` retires, the last reply before it
/// having answered `last`: `seq` itself, and the requests between, which get
/// no reply since replies come in order.
pub open spec fn retired(last: u64, seq: u64) -> Set<u64> {
    Set::new(|k: u64| (last < k && k <= seq) || k == seq)
}

/// `d1` is `d0` after filing one frame from the server: a reply or an error
/// under its widened sequence number, retiring the requests up to it; anything
/// else queued as an event.
pub open spec fn frame_filed(d0: Display, d1: Display, frame: Seq<u8>) -> bool {
    &&& d1.next_sequence() == d0.next_sequence()
    &&& d1.extensions() == d0.extensions()
    &&& if frame[0] == 0 || frame[0] == 1 {
        let seq = widened((d0.next_sequence() - 1) as u64, le16(frame, 2) as u16) as u64;
        &&& d1.pending_replies().contains_key(seq)
        &&& tiny_bytes(d1.pending_replies()[seq].data) == frame
        &&& d1.pending_replies().remove(seq) == d0.pending_replies().remove(seq)
        &&& d1.pending_requests() == d0.pending_requests().remove_keys(retired(d0.last_read(), seq))
        &&& d1.events() == d0.events()
    } else {
        &&& d1.events().len() == d0.events().len() + 1
        &&& d1.events().drop_last() == d0.events()
        &&& tiny_bytes(d1.events().last()) == frame
        &&& d1.pending_replies() == d0.pending_replies()
        &&& d1.pending_requests() == d0.pending_requests()
    }
}

/// The flags filed for a request.
pub open spec fn flags_for(expects_fds: bool, glx_fix: bool) -> PendingRequestFlags {
    PendingRequestFlags {
        expects_fds,
        workaround: if glx_fix {
            RequestWorkaround::GlxFbconfigBug
        } else {
            RequestWorkaround::NoWorkaround
        },
    }
}

/// The name of an optional extension, as bytes.
pub open spec fn ext_bytes(extension: Option<&'static str>) -> Option<Seq<u8>> {
    match extension {
        Some(n) => Some(n.spec_bytes()),
        None => None,
    }
}

impl Display {
    /// The sequence number the next request receives.
    pub closed spec fn next_sequence(&self) -> u64 {
        self.request_number
    }

    /// The requests sent whose replies have not come, by sequence number.
    pub closed spec fn pending_requests(&self) -> Map<u64, PendingRequestFlags> {
        self.pending_requests@
    }

    /// The replies and errors received and not yet taken, by sequence number.
    pub closed spec fn pending_replies(&self) -> Map<u64, PendingReply> {
        self.pending_replies@
    }

    /// The events received and not yet read, oldest first.
    pub closed spec fn events(&self) -> Seq<Bytes> {
        self.events@
    }

    /// The sequence number of the last reply or error received.
    pub closed spec fn last_read(&self) -> u64 {
        self.last_read
    }

    /// The cached extension opcodes, by 24-byte key.
    pub closed spec fn extensions(&self) -> Map<Seq<u8>, u8> {
        self.extensions@
    }

    /// Whether the request with sequence number `k` awaits a reply that needs
    /// the GLX length fix.
    pub open spec fn glx_pending(&self, k: u64) -> bool {
        self.pending_requests().contains_key(k) && self.pending_requests()[k].workaround
            == RequestWorkaround::GlxFbconfigBug
    }

    pub closed spec fn wf(&self) -> bool {
        &&& self.request_number >= 1
        &&& self.extensions.wf()
        &&& forall|k: u64| #[trigger] self.glx_pending(k) ==> self.glx_sequences@.contains(k)
    }

    /// A fresh display: no requests sent, the first to receive sequence number 1.
    pub fn new() -> (r: Display)
        ensures
            r.wf(),
            r.next_sequence() == 1,
            r.pending_requests() == Map::<u64, PendingRequestFlags>::empty(),
            r.pending_replies() == Map::<u64, PendingReply>::empty(),
            r.events().len() == 0,
            r.extensions() == Map::<Seq<u8>, u8>::empty(),
            r.last_read() == 0,
    {
        Display {
            request_number: 1,
            pending_requests: BTreeMap::new(),
            pending_replies: BTreeMap::new(),
            events: Vec::new(),
            extensions: ExtensionRegistry::new(),
            last_read: 0,
            glx_sequences: Vec::new(),
        }
    }

    /// The sequence number the next request receives.
    pub fn request_number(&self) -> (r: u64)
        ensures
            r == self.next_sequence(),
    {
        self.request_number
    }

    /// Whether the request with this sequence number still awaits its reply.
    pub fn is_pending(&self, sequence: u64) -> (r: bool)
        ensures
            r == self.pending_requests().contains_key(sequence),
    {
        self.pending_requests.contains_key(&sequence)
    }

    /// The tagged-sequence list still covers the table where neither changed.
    proof fn lemma_glx_frame(d0: Display, d1: Display)
        requires
            d0.wf(),
            d1.request_number >= 1,
            d1.extensions.wf(),
            d1.pending_requests@ == d0.pending_requests@,
            d1.glx_sequences@ == d0.glx_sequences@,
        ensures
            d1.wf(),
    {
        assert forall|k: u64| #[trigger] d1.glx_pending(k) implies d1.glx_sequences@.contains(k) by {
            assert(d0.glx_pending(k));
        }
    }

    /// The sequence numbers still awaiting a reply that needs the GLX fix.
    fn glx_live(&self) -> (r: Vec<u64>)
        requires
            self.wf(),
        ensures
            forall|k: u64| r@.contains(k) <==> self.glx_pending(k),
    {
        let mut r: Vec<u64> = Vec::new();
        let mut i: usize = 0;
        while i < self.glx_sequences.len()
            invariant
                self.wf(),
                i <= self.glx_sequences@.len(),
                forall|k: u64| r@.contains(k) ==> self.glx_pending(k),
                forall|j: int|
                    0 <= j < i && self.glx_pending(#[trigger] self.glx_sequences@[j]) ==> r@.contains(
                        self.glx_sequences@[j],
                    ),
            decreases self.glx_sequences@.len() - i,
        {
            let k = self.glx_sequences[i];
            let tagged = match self.pending_requests.get(&k) {
                Some(flags) => match flags.workaround {
                    RequestWorkaround::GlxFbconfigBug => true,
                    RequestWorkaround::NoWorkaround => false,
                },
                None => false,
            };
            if tagged {
                let ghost r0 = r@;
                r.push(k);
                assert forall|k2: u64| r@.contains(k2) implies self.glx_pending(k2) by {
                    if k2 != k {
                        let j = choose|j: int| 0 <= j < r@.len() && r@[j] == k2;
                        assert(r0[j] == k2);
                    }
                }
                assert forall|j: int|
                    0 <= j < i + 1 && self.glx_pending(#[trigger] self.glx_sequences@[j]) implies r@.contains(
                    self.glx_sequences@[j],
                ) by {
                    if j < i {
                        let m = choose|m: int| 0 <= m < r0.len() && r0[m] == self.glx_sequences@[j];
                        assert(r@[m] == r0[m]);
                    } else {
                        assert(r@[r@.len() - 1] == k);
                    }
                }
            }
            i = i + 1;
        }
        assert forall|k: u64| self.glx_pending(k) implies r@.contains(k) by {
            let j = choose|j: int| 0 <= j < self.glx_sequences@.len() && self.glx_sequences@[j] == k;
            assert(self.glx_pending(self.glx_sequences@[j]));
        }
        r
    }

    /// The 16-bit sequence numbers of the replies still awaited that need the
    /// GLX length fix: what `WaitBuffer::poll_wait` takes as its list.
    pub fn glx_tagged_sequences(&self) -> (r: Vec<u16>)
        requires
            self.wf(),
        ensures
            forall|k: u64| #[trigger] self.glx_pending(k) ==> r@.contains((k % 0x10000) as u16),
    {
        let live = self.glx_live();
        let mut r: Vec<u16> = Vec::new();
        let mut i: usize = 0;
        while i < live.len()
            invariant
                i <= live@.len(),
                r@.len() == i,
                forall|k: u64| live@.contains(k) <==> self.glx_pending(k),
                forall|j: int| 0 <= j < i ==> r@[j] == (live@[j] % 0x10000) as u16,
            decreases live@.len() - i,
        {
            let ghost k = live@[i as int];
            assert(live@.contains(k));
            assert(self.glx_pending(k));
            r.push((live[i] % 0x10000) as u16);
            assert(r@[i as int] == (k % 0x10000) as u16);
            i = i + 1;
        }
        assert forall|k: u64| #[trigger] self.glx_pending(k) implies r@.contains((k % 0x10000) as u16) by {
            assert(live@.contains(k));
            let j = choose|j: int| 0 <= j < live@.len() && live@[j] == k;
            assert(r@[j] == (k % 0x10000) as u16);
        }
        r
    }

    /// The number of events received and not yet read.
    pub fn event_count(&self) -> (r: usize)
        ensures
            r == self.events().len(),
    {
        self.events.len()
    }

    /// The opcode cached for an extension key.
    pub fn get_extension_opcode(&self, key: &[u8; EXT_KEY_SIZE]) -> (r: Option<u8>)
        requires
            self.wf(),
        ensures
            r == (if self.extensions().contains_key(key@) {
                Some(self.extensions()[key@])
            } else {
                None::<u8>
            }),
    {
        self.extensions.get(key)
    }

    /// Caches an extension's opcode; an entry already made is kept.
    pub fn set_extension_opcode(&mut self, key: [u8; EXT_KEY_SIZE], opcode: u8)
        requires
            old(self).wf(),
        ensures
            final(self).wf(),
            final(self).extensions() == (if old(self).extensions().contains_key(key@) {
                old(self).extensions()
            } else {
                old(self).extensions().insert(key@, opcode)
            }),
            final(self).next_sequence() == old(self).next_sequence(),
            final(self).pending_requests() == old(self).pending_requests(),
            final(self).pending_replies() == old(self).pending_replies(),
            final(self).events() == old(self).events(),
    {
        let ghost d0 = *self;
        self.extensions.insert(key, opcode);
        proof {
            Self::lemma_glx_frame(d0, *self);
        }
    }

    /// Files a request as awaiting its reply.
    pub fn expect_reply(&mut self, sequence: u64, flags: PendingRequestFlags)
        ensures
            final(self).pending_requests() == old(self).pending_requests().insert(sequence, flags),
            final(self).next_sequence() == old(self).next_sequence(),
            final(self).pending_replies() == old(self).pending_replies(),
            final(self).events() == old(self).events(),
            final(self).extensions() == old(self).extensions(),
            old(self).wf() ==> final(self).wf(),
    {
        self.pending_requests.insert(sequence, flags);
        if let RequestWorkaround::GlxFbconfigBug = flags.workaround {
            self.glx_sequences.push(sequence);
        }
        proof {
            assert forall|k: u64| #[trigger] self.glx_pending(k) && old(self).wf()
                implies self.glx_sequences@.contains(k) by {
                if k == sequence {
                    assert(self.glx_sequences@.last() == k);
                } else {
                    assert(old(self).glx_pending(k));
                    let j = choose|j: int| 0 <= j < old(self).glx_sequences@.len() && old(self).glx_sequences@[j] == k;
                    assert(self.glx_sequences@[j] == k);
                }
            }
        }
    }

    /// Takes the reply to a request out of the display, once.
    pub fn take_pending_reply(&mut self, sequence: u64) -> (r: Option<PendingReply>)
        ensures
            r == (if old(self).pending_replies().contains_key(sequence) {
                Some(old(self).pending_replies()[sequence])
            } else {
                None::<PendingReply>
            }),
            final(self).pending_replies() == old(self).pending_replies().remove(sequence),
            final(self).pending_requests() == old(self).pending_requests(),
            final(self).last_read() == old(self).last_read(),
            final(self).next_sequence() == old(self).next_sequence(),
            final(self).events() == old(self).events(),
            final(self).extensions() == old(self).extensions(),
            old(self).wf() ==> final(self).wf(),
    {
        let ghost d0 = *self;
        let r = self.pending_replies.remove(&sequence);
        proof {
            if d0.wf() {
                Self::lemma_glx_frame(d0, *self);
            }
        }
        r
    }

    /// Gives a request the next sequence number and files it as awaiting its
    /// reply, tagged with the GLX length fix where its reply needs it.
    pub fn preprocess_request(&mut self, req: &mut RequestInfo)
        requires
            old(self).wf(),
            old(self).next_sequence() < u64::MAX,
        ensures
            final(self).wf(),
            final(req).sequence == Some(old(self).next_sequence()),
            final(self).next_sequence() == old(self).next_sequence() + 1,
            final(self).pending_requests() == old(self).pending_requests().insert(
                old(self).next_sequence(),
                flags_for(
                    old(req).expects_fds,
                    needs_glx_fix(ext_bytes(old(req).extension), old(req).opcode, tiny_bytes(old(req).data)),
                ),
            ),
            final(self).pending_replies() == old(self).pending_replies(),
            final(self).events() == old(self).events(),
            final(self).extensions() == old(self).extensions(),
            final(req).data == old(req).data,
            final(req).fds == old(req).fds,
            final(req).opcode == old(req).opcode,
            final(req).extension == old(req).extension,
            final(req).expects_fds == old(req).expects_fds,
    {
        let sequence = self.request_number;
        self.request_number = self.request_number + 1;
        let glx = glx_workaround(req.extension, req.opcode, bytes_slice(&req.data));
        let flags = PendingRequestFlags {
            expects_fds: req.expects_fds,
            workaround: if glx {
                RequestWorkaround::GlxFbconfigBug
            } else {
                RequestWorkaround::NoWorkaround
            },
        };
        let ghost d1 = *self;
        proof {
            Self::lemma_glx_frame(*old(self), d1);
        }
        self.expect_reply(sequence, flags);
        req.sequence = Some(sequence);
    }

    /// Frames a request for the wire: the next sequence number, the opcode bytes
    /// (the extension's major opcode first, where there is one), and its entry
    /// in the pending-request table. Returns the sequence number.
    pub fn encode_request(&mut self, req: &mut RequestInfo, ext_opcode: Option<u8>) -> (r: u64)
        requires
            old(self).wf(),
            old(req).wf(),
            old(self).next_sequence() < u64::MAX,
        ensures
            final(self).wf(),
            final(req).wf(),
            r == old(self).next_sequence(),
            final(req).sequence == Some(r),
            final(self).next_sequence() == r + 1,
            tiny_bytes(final(req).data) == with_opcode(
                tiny_bytes(old(req).data),
                old(req).opcode,
                ext_opcode,
            ),
            final(self).pending_requests() == old(self).pending_requests().insert(
                r,
                flags_for(
                    old(req).expects_fds,
                    needs_glx_fix(ext_bytes(old(req).extension), old(req).opcode, tiny_bytes(old(req).data)),
                ),
            ),
            final(self).pending_replies() == old(self).pending_replies(),
            final(self).events() == old(self).events(),
            final(self).extensions() == old(self).extensions(),
            final(req).fds == old(req).fds,
            final(req).opcode == old(req).opcode,
            final(req).extension == old(req).extension,
            final(req).expects_fds == old(req).expects_fds,
    {
        self.preprocess_request(req);
        let opcode = req.opcode;
        modify_for_opcode(&mut req.data, opcode, ext_opcode);
        self.request_number - 1
    }

    /// One step of resolving an extension's major opcode. A cached opcode is
    /// returned whatever `answer` holds. Otherwise, with no answer yet, the caller
    /// is asked to send `QueryExtension`; with its answer, a failure to get one
    /// is passed on unchanged, an absent extension gives `ExtensionNotPresent`,
    /// and a present one is cached and returned.
    pub fn get_ext_opcode(
        &mut self,
        extname: &'static str,
        answer: Option<Result<QueryExtensionReply, BreadError>>,
    ) -> (r: ExtLookup)
        requires
            old(self).wf(),
        ensures
            final(self).wf(),
            ({
                let key = key_of(extname.spec_bytes());
                if old(self).extensions().contains_key(key) {
                    r == ExtLookup::Known(old(self).extensions()[key]) && final(self).extensions()
                        == old(self).extensions()
                } else {
                    match answer {
                        None => r == ExtLookup::Query && final(self).extensions() == old(
                            self,
                        ).extensions(),
                        Some(Ok(q)) if q.present => r == ExtLookup::Known(q.major_opcode)
                            && final(self).extensions() == old(self).extensions().insert(
                            key,
                            q.major_opcode,
                        ),
                        Some(Ok(_)) => final(self).extensions() == old(self).extensions() && match r {
                            ExtLookup::Failed(BreadError::ExtensionNotPresent(n)) => n@
                                == extname@,
                            _ => false,
                        },
                        Some(Err(e)) => final(self).extensions() == old(self).extensions() && r
                            == ExtLookup::Failed(e),
                    }
                }
            }),
            final(self).next_sequence() == old(self).next_sequence(),
            final(self).pending_requests() == old(self).pending_requests(),
            final(self).pending_replies() == old(self).pending_replies(),
            final(self).events() == old(self).events(),
    {
        let sarr = string_as_array_bytes(extname);
        match self.extensions.get(&sarr) {
            Some(code) => ExtLookup::Known(code),
            None => match answer {
                None => ExtLookup::Query,
                Some(Ok(q)) => {
                    if q.present {
                        let ghost d0 = *self;
                        self.extensions.insert(sarr, q.major_opcode);
                        proof {
                            Self::lemma_glx_frame(d0, *self);
                        }
                        ExtLookup::Known(q.major_opcode)
                    } else {
                        ExtLookup::Failed(BreadError::ExtensionNotPresent(extname.to_owned()))
                    }
                },
                Some(Err(e)) => ExtLookup::Failed(e),
            },
        }
    }

    /// Files a frame received from the server. An error (tag 0) or a reply (tag 1)
    /// is kept under its full sequence number, widened against the last number
    /// issued, and its request leaves the pending table; anything else is an
    /// event, queued. A frame shorter than 32 bytes is malformed.
    pub fn process_bytes(&mut self, data: Bytes, fds: Vec<Fd>) -> (r: Result<(), BreadError>)
        requires
            old(self).wf(),
        ensures
            final(self).wf(),
            final(self).next_sequence() == old(self).next_sequence(),
            final(self).extensions() == old(self).extensions(),
            tiny_bytes(data).len() < 32 ==> r is Err && final(self).pending_requests() == old(
                self,
            ).pending_requests() && final(self).pending_replies() == old(self).pending_replies()
                && final(self).events() == old(self).events(),
            tiny_bytes(data).len() >= 32 ==> r is Ok,
            tiny_bytes(data).len() >= 32 ==> frame_filed(*old(self), *final(self), tiny_bytes(data)),
            tiny_bytes(data).len() >= 32 && (tiny_bytes(data)[0] == 0 || tiny_bytes(data)[0] == 1) ==> {
                let seq = widened((old(self).next_sequence() - 1) as u64, le16(tiny_bytes(data), 2) as u16) as u64;
                &&& final(self).pending_replies() == old(self).pending_replies().insert(
                    seq,
                    PendingReply { data, fds },
                )
                &&& final(self).pending_requests() == old(self).pending_requests().remove_keys(
                    retired(old(self).last_read(), seq),
                )
                &&& final(self).last_read() == if seq > old(self).last_read() {
                    seq
                } else {
                    old(self).last_read()
                }
                &&& final(self).events() == old(self).events()
            },
            tiny_bytes(data).len() >= 32 && tiny_bytes(data)[0] != 0 && tiny_bytes(data)[0] != 1 ==> {
                &&& final(self).events() == old(self).events().push(data)
                &&& final(self).pending_replies() == old(self).pending_replies()
                &&& final(self).pending_requests() == old(self).pending_requests()
            },
    {
        let ghost frame = tiny_bytes(data);
        let ghost start = *self;
        let b = bytes_slice(&data);
        if b.len() < 32 {
            return Err(BreadError::BadReply);
        }
        if b[0] == 0 || b[0] == 1 {
            let short = b[2] as u16 + b[3] as u16 * 0x100;
            let seq = widen_sequence(self.request_number - 1, short);
            let ghost before = self.pending_requests@;
            let ghost d0 = *self;
            if seq > self.last_read {
                let mut k: u64 = self.last_read + 1;
                while k < seq
                    invariant
                        self.last_read < k <= seq,
                        self.request_number == d0.request_number,
                        self.extensions == d0.extensions,
                        self.events == d0.events,
                        self.pending_replies == d0.pending_replies,
                        self.last_read == d0.last_read,
                        self.glx_sequences == d0.glx_sequences,
                        d0.wf(),
                        self.pending_requests@ == before.remove_keys(
                            Set::new(|j: u64| self.last_read < j && j < k),
                        ),
                    decreases seq - k,
                {
                    let ghost prev = self.pending_requests@;
                    self.pending_requests.remove(&k);
                    assert(self.pending_requests@ =~= before.remove_keys(
                        Set::new(|j: u64| self.last_read < j && j < k + 1),
                    ));
                    k = k + 1;
                }
                self.pending_requests.remove(&seq);
                assert(self.pending_requests@ =~= before.remove_keys(retired(self.last_read, seq)));
                self.last_read = seq;
                assert(self.wf()) by {
                    assert forall|k: u64| #[trigger] self.glx_pending(k) implies self.glx_sequences@.contains(k) by {
                        assert(d0.glx_pending(k));
                    }
                }
                let ghost d2 = *self;
                let live = self.glx_live();
                self.glx_sequences = live;
                assert forall|k: u64| #[trigger] self.glx_pending(k) implies self.glx_sequences@.contains(k) by {
                    assert(d2.glx_pending(k));
                }
            } else {
                self.pending_requests.remove(&seq);
                assert(self.pending_requests@ =~= before.remove_keys(retired(self.last_read, seq)));
                assert(self.wf()) by {
                    assert forall|k: u64| #[trigger] self.glx_pending(k) implies self.glx_sequences@.contains(k) by {
                        assert(d0.glx_pending(k));
                    }
                }
            }
            let ghost d3 = *self;
            self.pending_replies.insert(seq, PendingReply { data, fds });
            proof {
                Self::lemma_glx_frame(d3, *self);
                assert(self.pending_replies@.remove(seq) =~= start.pending_replies@.remove(seq));
            }
        } else {
            let ghost d0 = *self;
            self.events.push(data);
            proof {
                Self::lemma_glx_frame(d0, *self);
                assert(self.events@.drop_last() =~= start.events@);
            }
        }
        Ok(())
    }
}

} // verus!

use breadx::{
    additional_bytes, decode_query_extension_reply, glx_workaround, plan_request,
    query_extension_request, reply_position, string_as_array_bytes, widen_sequence, Action,
    AsyncConnection, BreadError, Display, ExtLookup, Fd, Poll, QueryExtensionReply, RawDisplay,
    RequestInfo, SaDeviceValuator, SaGroupAction, SaModAction, SendBuffer, SendRequestRawFuture, Step, WaitBuffer,
};
use breadx::{bytes_from_slice, bytes_to_vec, Transport};

/// A connection that records what is sent and serves scripted bytes.
struct ScriptedConn {
    sent: Vec<Vec<u8>>,
    incoming: Vec<u8>,
    pos: usize,
    fds: Vec<Fd>,
}

impl ScriptedConn {
    fn new(incoming: Vec<u8>) -> Self {
        ScriptedConn { sent: vec![], incoming, pos: 0, fds: vec![] }
    }
}

impl AsyncConnection for ScriptedConn {
    fn poll_send_packet(
        &mut self,
        bytes: &[u8],
        _fds: &mut Vec<Fd>,
        total_sent: &mut usize,
    ) -> Poll<Result<(), BreadError>> {
        self.sent.push(bytes.to_vec());
        *total_sent += bytes.len();
        Poll::Ready(Ok(()))
    }

    fn poll_read_packet(
        &mut self,
        bytes: &mut Vec<u8>,
        want: usize,
        fds: &mut Vec<Fd>,
    ) -> Poll<Result<(), BreadError>> {
        fds.append(&mut self.fds);
        let avail = self.incoming.len() - self.pos;
        let n = if avail < want { avail } else { want };
        bytes.extend_from_slice(&self.incoming[self.pos..self.pos + n]);
        self.pos += n;
        if n == want {
            Poll::Ready(Ok(()))
        } else {
            Poll::Pending
        }
    }
}

fn request(body: &[u8], opcode: u8, extension: Option<&'static str>) -> RequestInfo {
    RequestInfo::from_body(bytes_from_slice(body), body.len(), opcode, extension, false)
}

fn reply_frame(seq: u16, length: u32, present: u8, major: u8) -> Vec<u8> {
    let mut f = vec![0u8; 32];
    f[0] = 1;
    f[2] = (seq & 0xff) as u8;
    f[3] = (seq >> 8) as u8;
    f[4..8].copy_from_slice(&length.to_le_bytes());
    f[8] = present;
    f[9] = major;
    f
}

fn drive(rd: &mut RawDisplay<ScriptedConn>, req: RequestInfo) -> Result<u16, BreadError> {
    let mut fut = SendRequestRawFuture::run(rd, req);
    for _ in 0..100 {
        match fut.poll() {
            Step::Ready(r) => return r,
            Step::Again => {}
            Step::Pending => panic!("the scripted connection ran dry"),
        }
    }
    panic!("no progress")
}

#[test]
fn get_input_focus_frames_four_bytes() {
    let mut d = Display::new();
    let mut req = request(&[0, 0, 0, 0], 43, None);
    let seq = d.encode_request(&mut req, None);
    assert_eq!(seq, 1);
    assert_eq!(bytes_to_vec(&req.data), vec![43, 0, 0x01, 0x00]);
    assert_eq!(d.request_number(), 2);
}

#[test]
fn get_input_focus_sent_and_reply_read() {
    let mut rd = RawDisplay::new(ScriptedConn::new(reply_frame(1, 0, 0, 0)));
    let seq = drive(&mut rd, request(&[0, 0, 0, 0], 43, None)).unwrap();
    assert_eq!(seq, 1);
    assert_eq!(rd.connection.get_ref().sent, vec![vec![43, 0, 1, 0]]);
    assert!(matches!(rd.send_buffer, SendBuffer::Hole));
    let mut wb = WaitBuffer::new();
    match wb.poll_wait(&mut rd.connection, &[]) {
        Poll::Ready(Ok(ret)) => {
            let data = bytes_to_vec(&ret.data);
            assert_eq!(data.len(), 32);
            assert_eq!(data[0], 1);
            assert_eq!(&data[4..8], &[0, 0, 0, 0]);
        }
        _ => panic!("expected a whole reply"),
    }
}

#[test]
fn extension_cold_path_then_warm_path() {
    let mut rd = RawDisplay::new(ScriptedConn::new(reply_frame(1, 0, 1, 149)));
    let seq = drive(&mut rd, request(&[0, 0, 0, 0, 7, 0, 0, 0], 21, Some("GLX"))).unwrap();
    assert_eq!(seq, 2);
    assert_eq!(rd.connection.get_ref().sent.len(), 2);
    assert_eq!(
        rd.connection.get_ref().sent[0],
        vec![98, 0, 3, 0, 3, 0, 0, 0, b'G', b'L', b'X', 0]
    );
    assert_eq!(rd.connection.get_ref().sent[1], vec![149, 21, 2, 0, 7, 0, 0, 0]);
    assert_eq!(rd.display.request_number(), 3);

    let seq = drive(&mut rd, request(&[0, 0, 0, 0], 5, Some("GLX"))).unwrap();
    assert_eq!(seq, 3);
    assert_eq!(rd.connection.get_ref().sent.len(), 3);
    assert_eq!(rd.connection.get_ref().sent[2], vec![149, 5, 1, 0]);
    assert_eq!(rd.display.request_number(), 4);
}

#[test]
fn glx_vendor_private_reads_doubled_length() {
    let mut body = vec![0u8; 40];
    body[32..36].copy_from_slice(&0x0001_0004u32.to_le_bytes());
    assert!(glx_workaround(Some("GLX"), 17, &body));
    assert!(glx_workaround(Some("GLX"), 21, &[0, 0, 0, 0]));
    assert!(!glx_workaround(Some("GLX"), 17, &[0u8; 40]));
    assert!(!glx_workaround(None, 21, &[0, 0, 0, 0]));

    let header = reply_frame(5, 3, 0, 0);
    assert_eq!(additional_bytes(&header[..8], true), Some(24));
    assert_eq!(additional_bytes(&header[..8], false), Some(12));

    let mut frame = header.clone();
    frame.extend(vec![9u8; 24]);
    let mut conn = Transport::new(ScriptedConn::new(frame));
    let mut wb = WaitBuffer::new();
    match wb.poll_wait(&mut conn, &[5]) {
        Poll::Ready(Ok(ret)) => {
            let data = bytes_to_vec(&ret.data);
            assert_eq!(data.len(), 56);
            assert_eq!(&data[32..], &[9u8; 24][..]);
        }
        _ => panic!("expected a whole reply"),
    }
}

#[test]
fn glx_tag_is_filed_with_the_request() {
    let mut d = Display::new();
    let mut body = vec![0u8; 40];
    body[32..36].copy_from_slice(&0x0001_0004u32.to_le_bytes());
    let mut req = request(&body, 17, Some("GLX"));
    let seq = d.encode_request(&mut req, Some(149));
    assert_eq!(seq, 1);
    let data = bytes_to_vec(&req.data);
    assert_eq!(&data[..4], &[149, 17, 10, 0]);
    assert_eq!(d.glx_tagged_sequences(), vec![1]);
    let mut plain = request(&[0, 0, 0, 0], 43, None);
    d.encode_request(&mut plain, None);
    assert_eq!(d.glx_tagged_sequences(), vec![1]);
    assert!(d.process_bytes(bytes_from_slice(&reply_frame(1, 0, 0, 0)), vec![]).is_ok());
    assert!(d.glx_tagged_sequences().is_empty());
}

#[test]
fn extension_absent_fails_and_buffer_empties() {
    let mut rd = RawDisplay::new(ScriptedConn::new(reply_frame(1, 0, 0, 0)));
    match drive(&mut rd, request(&[0, 0, 0, 0], 1, Some("NOSUCH"))) {
        Err(BreadError::ExtensionNotPresent(name)) => assert_eq!(name, "NOSUCH"),
        _ => panic!("expected ExtensionNotPresent"),
    }
    assert!(matches!(rd.send_buffer, SendBuffer::Hole));
    let seq = drive(&mut rd, request(&[0, 0, 0, 0], 43, None)).unwrap();
    assert_eq!(seq, 2);
    assert_eq!(rd.connection.get_ref().sent.last().unwrap(), &vec![43, 0, 1, 0]);
}

#[test]
fn xkb_lock_mods_round_trip() {
    let a = Action::LockMods(SaModAction {
        flags: 1,
        mask: 2,
        real_mods: 3,
        vmods_high: 4,
        vmods_low: 5,
    });
    assert_eq!(a.size(), 8);
    let mut buf = [0xffu8; 10];
    assert_eq!(a.as_bytes(&mut buf), 8);
    assert_eq!(&buf[..8], &[3, 1, 2, 3, 4, 5, 0, 0]);
    assert_eq!(buf[8], 0xff);
    assert_eq!(Action::from_bytes(&buf), Some((a, 8)));
    let mut bad = buf;
    bad[0] = 21;
    assert_eq!(Action::from_bytes(&bad), None);
    assert_eq!(Action::from_bytes(&buf[..7]), None);
}

#[test]
fn xkb_raw_action_round_trip() {
    let a = Action::DeviceValuator(SaDeviceValuator {
        device: 1,
        val1what: 2,
        val1index: 3,
        val1value: 4,
        val2what: 5,
        val2index: 6,
        val2value: 7,
    });
    let mut buf = [0u8; 8];
    a.as_bytes(&mut buf);
    assert_eq!(buf, [20, 1, 2, 3, 4, 5, 6, 7]);
    assert_eq!(Action::from_bytes(&buf), Some((a, 8)));
    let g = Action::LatchGroup(SaGroupAction { flags: 1, group: 0xfe });
    let mut buf = [0xaau8; 8];
    g.as_bytes(&mut buf);
    assert_eq!(buf, [5, 1, 0xfe, 0, 0, 0, 0, 0]);
    assert_eq!(Action::from_bytes(&[5, 1, 0xfe, 9, 9, 9, 9, 9]), Some((g, 8)));
    let d = Action::default();
    let mut buf = [9u8; 8];
    d.as_bytes(&mut buf);
    assert_eq!(buf, [0; 8]);
}

#[test]
fn extension_key_pads_and_truncates() {
    let k = string_as_array_bytes("GLX");
    assert_eq!(&k[..4], &[b'G', b'L', b'X', 0]);
    assert!(k[3..].iter().all(|b| *b == 0));
    let long = "ABCDEFGHIJKLMNOPQRSTUVWXYZ";
    let k = string_as_array_bytes(long);
    assert_eq!(&k[..], &long.as_bytes()[..24]);
}

#[test]
fn sequence_widening_picks_closest_prior() {
    assert_eq!(widen_sequence(0x1_0005, 3), 0x1_0003);
    assert_eq!(widen_sequence(0x1_0005, 0xfffe), 0xfffe);
    assert_eq!(widen_sequence(7, 7), 7);
    assert_eq!(widen_sequence(2, 9), 9);
}

#[test]
fn ext_lookup_steps() {
    let mut d = Display::new();
    assert!(matches!(d.get_ext_opcode("GLX", None), ExtLookup::Query));
    let absent = QueryExtensionReply { present: false, major_opcode: 0, first_event: 0, first_error: 0 };
    match d.get_ext_opcode("GLX", Some(Ok(absent))) {
        ExtLookup::Failed(BreadError::ExtensionNotPresent(n)) => assert_eq!(n, "GLX"),
        _ => panic!("expected a failure"),
    }
    let present = QueryExtensionReply { present: true, major_opcode: 149, first_event: 0, first_error: 0 };
    assert!(matches!(d.get_ext_opcode("GLX", Some(Ok(present))), ExtLookup::Known(149)));
    assert!(matches!(d.get_ext_opcode("GLX", None), ExtLookup::Known(149)));
    assert_eq!(d.get_extension_opcode(&string_as_array_bytes("GLX")), Some(149));
    match d.get_ext_opcode("XKB", Some(Err(BreadError::Io("gone".to_string())))) {
        ExtLookup::Failed(BreadError::Io(m)) => assert_eq!(m, "gone"),
        _ => panic!("expected the error passed on"),
    }
}

#[test]
fn replies_are_filed_and_taken_once() {
    let mut d = Display::new();
    let mut req = request(&[0, 0, 0, 0], 43, None);
    let seq = d.encode_request(&mut req, None);
    assert!(d.process_bytes(bytes_from_slice(&reply_frame(1, 0, 0, 0)), vec![]).is_ok());
    assert!(d.take_pending_reply(seq).is_some());
    assert!(d.take_pending_reply(seq).is_none());
    assert!(d.process_bytes(bytes_from_slice(&vec![1, 2, 3]), vec![]).is_err());
    let mut event = vec![0u8; 32];
    event[0] = 12;
    assert!(d.process_bytes(bytes_from_slice(&event), vec![]).is_ok());
    assert_eq!(d.event_count(), 1);
}

#[test]
fn query_extension_reply_decoding() {
    let r = decode_query_extension_reply(&reply_frame(1, 0, 1, 149)).unwrap();
    assert!(r.present);
    assert_eq!(r.major_opcode, 149);
    let mut err = vec![0u8; 32];
    err[1] = 2;
    err[2] = 7;
    match decode_query_extension_reply(&err) {
        Err(BreadError::ServerError { code, sequence, .. }) => {
            assert_eq!(code, 2);
            assert_eq!(sequence, 7);
        }
        _ => panic!("expected a server error"),
    }
    assert!(matches!(decode_query_extension_reply(&[1, 0]), Err(BreadError::BadReply)));
}

#[test]
fn query_extension_request_bytes() {
    let q = query_extension_request("XKEYBOARD");
    assert_eq!(
        bytes_to_vec(&q.data),
        vec![98, 0, 5, 0, 9, 0, 0, 0, b'X', b'K', b'E', b'Y', b'B', b'O', b'A', b'R', b'D', 0, 0, 0]
    );
}

#[test]
fn padding_and_length() {
    let r = request(&[1, 2, 3, 4, 5], 7, None);
    assert_eq!(bytes_to_vec(&r.data), vec![1, 2, 2, 0, 5, 0, 0, 0]);
}

#[test]
fn additional_bytes_for_events_and_errors() {
    let mut ev = vec![0u8; 8];
    ev[0] = 12;
    ev[4] = 5;
    assert_eq!(additional_bytes(&ev, false), None);
    let mut generic = vec![0u8; 8];
    generic[0] = 35;
    generic[4] = 2;
    assert_eq!(additional_bytes(&generic, false), Some(8));
    assert_eq!(additional_bytes(&reply_frame(1, 0, 0, 0)[..8], true), None);
}

#[test]
fn request_plan_names_and_reply() {
    let kids = vec!["field".to_string(), "reply".to_string(), "pad".to_string()];
    assert_eq!(reply_position(&kids), Some(1));
    let p = plan_request("GetInputFocus", 43, &kids);
    assert_eq!(p.request_name, "GetInputFocusRequest");
    assert_eq!(p.reply_name.as_deref(), Some("GetInputFocusReply"));
    assert_eq!(p.reply_index, Some(1));
    assert_eq!(p.opcode, 43);
    let none = plan_request("Bell", 104, &vec!["field".to_string()]);
    assert_eq!(none.reply_name, None);
    assert_eq!(none.reply_index, None);
}

#[test]
fn a_reply_retires_the_reply_less_requests_before_it() {
    let mut d = Display::new();
    for _ in 0..3 {
        let mut req = request(&[0, 0, 0, 0], 43, None);
        d.encode_request(&mut req, None);
    }
    assert!(d.is_pending(1) && d.is_pending(2) && d.is_pending(3));
    assert!(d.process_bytes(bytes_from_slice(&reply_frame(2, 0, 0, 0)), vec![]).is_ok());
    assert!(!d.is_pending(1));
    assert!(!d.is_pending(2));
    assert!(d.is_pending(3));
    assert!(d.process_bytes(bytes_from_slice(&reply_frame(3, 0, 0, 0)), vec![]).is_ok());
    assert!(!d.is_pending(3));
}

#[test]
fn sent_bytes_are_the_substituted_request() {
    let mut req = request(&[0, 0, 0, 0, 7, 0, 0, 0], 21, None);
    req.sequence = Some(1);
    let mut isb = breadx::InnerSendBuffer::new_internal(req, Some(149));
    let mut conn = Transport::new(ScriptedConn::new(vec![]));
    match isb.poll_send_request(&mut conn) {
        Poll::Ready(Ok(info)) => {
            assert_eq!(info.opcode, 21);
            assert_eq!(info.sequence, Some(1));
            assert!(bytes_to_vec(&info.data).is_empty());
        }
        _ => panic!("expected the request back"),
    }
    assert_eq!(conn.get_ref().sent, vec![vec![149, 21, 2, 0, 7, 0, 0, 0]]);
}

/// A connection whose every operation fails.
struct BrokenConn;

impl AsyncConnection for BrokenConn {
    fn poll_send_packet(
        &mut self,
        _bytes: &[u8],
        _fds: &mut Vec<Fd>,
        _total_sent: &mut usize,
    ) -> Poll<Result<(), BreadError>> {
        Poll::Ready(Err(BreadError::Io("send down".to_string())))
    }

    fn poll_read_packet(
        &mut self,
        _bytes: &mut Vec<u8>,
        _want: usize,
        _fds: &mut Vec<Fd>,
    ) -> Poll<Result<(), BreadError>> {
        Poll::Ready(Err(BreadError::Io("read down".to_string())))
    }
}

#[test]
fn connection_errors_come_back_unchanged() {
    let mut conn = Transport::new(BrokenConn);
    let mut wb = WaitBuffer::new();
    match wb.poll_wait(&mut conn, &[]) {
        Poll::Ready(Err(BreadError::Io(m))) => assert_eq!(m, "read down"),
        _ => panic!("expected the read error"),
    }
    let mut rd = RawDisplay::new(BrokenConn);
    match drive_broken(&mut rd) {
        Err(BreadError::Io(m)) => assert_eq!(m, "send down"),
        _ => panic!("expected the send error"),
    }
    assert!(matches!(rd.send_buffer, SendBuffer::Hole));
}

fn drive_broken(rd: &mut RawDisplay<BrokenConn>) -> Result<u16, BreadError> {
    let mut fut = SendRequestRawFuture::run(rd, request(&[0, 0, 0, 0], 43, None));
    for _ in 0..10 {
        match fut.poll() {
            Step::Ready(r) => return r,
            Step::Again => {}
            Step::Pending => panic!("unexpected wait"),
        }
    }
    panic!("no progress")
}

#[test]
fn wait_returns_frame_and_descriptors_in_order() {
    let mut frame = reply_frame(4, 1, 0, 0);
    frame.extend([5u8, 6, 7, 8]);
    let mut sc = ScriptedConn::new(frame.clone());
    sc.fds = vec![10, 11];
    let mut conn = Transport::new(sc);
    let mut wb = WaitBuffer::new();
    match wb.poll_wait(&mut conn, &[]) {
        Poll::Ready(Ok(ret)) => {
            assert_eq!(bytes_to_vec(&ret.data), frame);
            assert_eq!(ret.fds, vec![10, 11]);
        }
        _ => panic!("expected the whole frame"),
    }
}

#[test]
fn wait_resumes_after_a_partial_read() {
    let frame = reply_frame(2, 0, 0, 0);
    let mut conn = Transport::new(ScriptedConn::new(frame[..20].to_vec()));
    let mut wb = WaitBuffer::new();
    assert!(matches!(wb.poll_wait(&mut conn, &[]), Poll::Pending));
    let mut rest = Transport::new(ScriptedConn::new(frame[20..].to_vec()));
    match wb.poll_wait(&mut rest, &[]) {
        Poll::Ready(Ok(ret)) => assert_eq!(bytes_to_vec(&ret.data), frame),
        _ => panic!("expected the whole frame"),
    }
}

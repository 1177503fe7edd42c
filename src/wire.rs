//! Framing of the X11 wire protocol.

use vstd::prelude::*;
use vstd::string::StringSliceAdditionalSpecFns;

verus! {

/// The fixed width of an extension-name key.
pub const EXT_KEY_SIZE: usize = 24;

/// The registry key of an extension name: its first 24 bytes, zero-padded.
pub open spec fn key_of(name: Seq<u8>) -> Seq<u8> {
    Seq::new(
        EXT_KEY_SIZE as nat,
        |i: int|
            if i < name.len() {
                name[i]
            } else {
                0u8
            },
    )
}

/// The 24-byte key under which an extension's opcode is cached.
pub fn string_as_array_bytes(s: &str) -> (r: [u8; EXT_KEY_SIZE])
    ensures
        r@ == key_of(s.spec_bytes()),
{
    let b = s.as_bytes();
    let mut bytes: [u8; EXT_KEY_SIZE] = [0; EXT_KEY_SIZE];
    let n: usize = if b.len() > EXT_KEY_SIZE {
        EXT_KEY_SIZE
    } else {
        b.len()
    };
    let mut i: usize = 0;
    while i < n
        invariant
            n <= EXT_KEY_SIZE,
            n <= b@.len(),
            n == b@.len() || n == EXT_KEY_SIZE,
            b@ == s.spec_bytes(),
            i <= n,
            bytes@.len() == EXT_KEY_SIZE,
            forall|j: int| 0 <= j < i ==> bytes@[j] == b@[j],
            forall|j: int| n <= j < EXT_KEY_SIZE ==> bytes@[j] == 0u8,
        decreases n - i,
    {
        bytes[i] = b[i];
        i = i + 1;
    }
    assert(bytes@ =~= key_of(s.spec_bytes()));
    bytes
}

} // verus!

verus! {

/// `n` zero bytes.
pub open spec fn zeros(n: nat) -> Seq<u8> {
    Seq::new(n, |i: int| 0u8)
}

/// `n` rounded up to a multiple of four.
pub open spec fn pad4(n: nat) -> nat {
    if n % 4 == 0 {
        n
    } else {
        (n + 4 - n % 4) as nat
    }
}

/// The little-endian `u32` at `at`.
pub open spec fn le32(b: Seq<u8>, at: int) -> int {
    b[at] as int + b[at + 1] as int * 0x100 + b[at + 2] as int * 0x10000 + b[at + 3] as int
        * 0x1000000
}

/// The little-endian `u16` at `at`.
pub open spec fn le16(b: Seq<u8>, at: int) -> int {
    b[at] as int + b[at + 1] as int * 0x100
}

/// The request body padded with zeros to a multiple of four bytes, with the
/// request length in four-byte units (modulo 2^16) in bytes 2 and 3.
pub open spec fn with_length(body: Seq<u8>) -> Seq<u8> {
    let p = body + zeros((pad4(body.len()) - body.len()) as nat);
    let units = (p.len() / 4) % 0x10000;
    p.update(2, (units % 0x100) as u8).update(3, (units / 0x100) as u8)
}

/// The opcode bytes of a request: the major opcode of the extension and the
/// request's own opcode after it, or the request's opcode alone.
pub open spec fn with_opcode(data: Seq<u8>, opcode: u8, ext_opcode: Option<u8>) -> Seq<u8> {
    match ext_opcode {
        None => data.update(0, opcode),
        Some(e) => data.update(0, e).update(1, opcode),
    }
}

/// Whether an extension name is `"GLX"`.
pub open spec fn is_glx(name: Seq<u8>) -> bool {
    name =~= seq![0x47u8, 0x4cu8, 0x58u8]
}

/// The requests whose replies carry half their true length: `GLX` `GetFBConfigs`,
/// and `GLX` `VendorPrivate` whose bytes 32..36 read `0x10004`.
pub open spec fn needs_glx_fix(extension: Option<Seq<u8>>, opcode: u8, data: Seq<u8>) -> bool {
    match extension {
        Some(name) => is_glx(name) && (opcode == 21 || (opcode == 17 && data.len() >= 36 && le32(
            data,
            32,
        ) == 0x10004)),
        None => false,
    }
}

/// The bytes that follow the first 32 of a frame from the server, given its first 8:
/// replies (tag 1) and generic events (tag 35) carry a length in four-byte units, which
/// the GLX fix counts in eight-byte units.
pub open spec fn extra_len(header: Seq<u8>, glx_fix: bool) -> nat {
    if header[0] == 1 || header[0] == 35 {
        (le32(header, 4) * if glx_fix {
            8int
        } else {
            4int
        }) as nat
    } else {
        0
    }
}

/// Whether a name is `"GLX"`.
pub fn is_glx_name(name: &str) -> (r: bool)
    ensures
        r == is_glx(name.spec_bytes()),
{
    let b = name.as_bytes();
    let r = b.len() == 3 && b[0] == 0x47 && b[1] == 0x4c && b[2] == 0x58;
    assert(r ==> b@ =~= seq![0x47u8, 0x4cu8, 0x58u8]);
    r
}

/// The little-endian `u32` at `at` of a byte slice.
pub fn read_u32_le(b: &[u8], at: usize) -> (r: u32)
    requires
        at + 4 <= b@.len(),
    ensures
        r as int == le32(b@, at as int),
{
    b[at] as u32 + b[at + 1] as u32 * 0x100 + b[at + 2] as u32 * 0x10000 + b[at + 3] as u32
        * 0x1000000
}

/// Whether the reply to this request needs the GLX length fix.
pub fn glx_workaround(extension: Option<&str>, opcode: u8, data: &[u8]) -> (r: bool)
    ensures
        r == needs_glx_fix(
            match extension {
                Some(n) => Some(n.spec_bytes()),
                None => None,
            },
            opcode,
            data@,
        ),
{
    match extension {
        None => false,
        Some(name) => {
            if !is_glx_name(name) {
                false
            } else if opcode == 21 {
                true
            } else {
                opcode == 17 && data.len() >= 36 && read_u32_le(data, 32) == 0x10004
            }
        },
    }
}

/// The number of bytes to read after the first 32 of a frame, or `None` where there
/// are none.
pub fn additional_bytes(header: &[u8], glx_fix: bool) -> (r: Option<u64>)
    requires
        header@.len() >= 8,
    ensures
        r == (if extra_len(header@, glx_fix) == 0 {
            None::<u64>
        } else {
            Some(extra_len(header@, glx_fix) as u64)
        }),
        extra_len(header@, glx_fix) <= 0x8_0000_0000,
{
    let len = read_u32_le(header, 4) as u64;
    if header[0] == 1 || header[0] == 35 {
        let extra = if glx_fix {
            len * 8
        } else {
            len * 4
        };
        if extra == 0 {
            None
        } else {
            Some(extra)
        }
    } else {
        None
    }
}

/// The full sequence number of a 16-bit one from the wire: the largest value not
/// above `last` that agrees with it modulo 2^16, or the 16-bit value itself where
/// there is none.
pub open spec fn widened(last: u64, seq: u16) -> int {
    if (seq as int) <= last {
        last - (last - seq as int) % 0x10000
    } else {
        seq as int
    }
}

/// Widens a 16-bit sequence number against the last one issued.
pub fn widen_sequence(last: u64, seq: u16) -> (r: u64)
    ensures
        r == widened(last, seq),
        r % 0x10000 == seq as int,
        (seq as int) <= last ==> r <= last && last - r < 0x10000,
{
    if (seq as u64) <= last {
        let r = last - (last - seq as u64) % 0x10000;
        assert(r % 0x10000 == seq as int) by (nonlinear_arith)
            requires
                r == last - (last - seq as int) % 0x10000,
                seq < 0x10000,
                seq <= last,
        ;
        r
    } else {
        seq as u64
    }
}

} // verus!

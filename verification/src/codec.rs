//! Wire codec for protocol frames.
//!
//! A frame is a fixed 16-byte header followed by three variable parts:
//!
//! | offset | field                                         |
//! |--------|-----------------------------------------------|
//! | 0..2   | version, little-endian `u16`                  |
//! | 2..6   | control code, two's-complement 32-bit field   |
//! | 6..8   | command byte length, little-endian `u16`      |
//! | 8..12  | header-blob length, little-endian `u32`       |
//! | 12..16 | body length field, little-endian `u32`        |
//! | 16..   | command bytes, header bytes, body bytes       |
//!
//! The top bit of the body length field marks the streamed-buffer body
//! variant; the low 31 bits give the body's byte length. A header-blob
//! length of zero means the header is absent; a body length of zero with the
//! stream bit clear means the body is absent.

use vstd::prelude::*;
use vstd::bytes::*;
use vstd::slice::{slice_subrange, slice_to_vec};
use vstd::string::StrSliceExecFns;
use vstd::utf8::{valid_utf8, encode_utf8, decode_utf8, encode_utf8_valid_utf8,
    encode_utf8_decode_utf8};

use crate::errors::Error;
use crate::msg::{Message, MessageV, Messages, MessagesV, MsgBody, MsgBodyV};

verus! {

/// Protocol version written into every encoded frame.
pub const MSG_VERSION: u16 = 1;

/// Length of the fixed frame header in bytes.
pub const HDR_LEN: usize = 16;

/// Top bit of the body length field: set when the body is a streamed buffer.
pub const BODY_STREAM_FLAG: u32 = 0x8000_0000;

/// Largest body length the 31-bit length field can carry.
pub const BODY_LEN_MAX: u32 = 0x7FFF_FFFF;

/// The 32-bit two's-complement image of a control code.
pub open spec fn control_bits(c: int) -> int
    recommends
        -0x8000_0000 <= c < 0x8000_0000,
{
    if c >= 0 {
        c
    } else {
        c + 0x1_0000_0000
    }
}

/// The control code a 32-bit two's-complement field stands for.
pub open spec fn control_of_bits(f: int) -> int
    recommends
        0 <= f < 0x1_0000_0000,
{
    if f < 0x8000_0000 {
        f
    } else {
        f - 0x1_0000_0000
    }
}

/// UTF-8 bytes of the outbound command, empty when absent.
pub open spec fn cmd_bytes_of(m: MessagesV) -> Seq<u8> {
    match m.cmds {
        Some(s) => encode_utf8(s),
        None => Seq::empty(),
    }
}

/// Header-blob bytes of an outbound message, empty when absent.
pub open spec fn head_bytes_of(m: MessagesV) -> Seq<u8> {
    match m.heads {
        Some(h) => h,
        None => Seq::empty(),
    }
}

/// Body bytes of an outbound message: the materialized payload wins over the
/// streamed buffer.
pub open spec fn out_body_bytes(m: MessagesV) -> Seq<u8> {
    match m.bodys {
        Some(b) => b,
        None => match m.bodybuf {
            Some(b) => b,
            None => Seq::empty(),
        },
    }
}

/// Whether the encoded body is marked as the streamed-buffer variant.
pub open spec fn out_body_streamed(m: MessagesV) -> bool {
    m.bodys is None && m.bodybuf is Some
}

/// The value of the body length field: length plus the stream flag bit.
pub open spec fn body_len_field(m: MessagesV) -> int {
    out_body_bytes(m).len() + if out_body_streamed(m) {
        BODY_STREAM_FLAG as int
    } else {
        0
    }
}

/// Whether an outbound message fits the wire format's length fields.
pub open spec fn sendable(m: MessagesV) -> bool {
    &&& -0x8000_0000 <= m.control < 0x8000_0000
    &&& cmd_bytes_of(m).len() <= 0xFFFF
    &&& head_bytes_of(m).len() <= 0xFFFF_FFFF
    &&& out_body_bytes(m).len() <= BODY_LEN_MAX
}

/// The exact byte image of an outbound message on the wire.
pub open spec fn spec_encode(m: MessagesV) -> Seq<u8> {
    spec_u16_to_le_bytes(MSG_VERSION) + spec_u32_to_le_bytes(control_bits(m.control) as u32)
        + spec_u16_to_le_bytes(cmd_bytes_of(m).len() as u16)
        + spec_u32_to_le_bytes(head_bytes_of(m).len() as u32)
        + spec_u32_to_le_bytes(body_len_field(m) as u32) + cmd_bytes_of(m) + head_bytes_of(m)
        + out_body_bytes(m)
}

/// Command byte length a frame's header declares.
pub open spec fn frame_cmd_len(b: Seq<u8>) -> int
    recommends
        b.len() >= HDR_LEN,
{
    spec_u16_from_le_bytes(b.subrange(6, 8)) as int
}

/// Header-blob length a frame's header declares.
pub open spec fn frame_head_len(b: Seq<u8>) -> int
    recommends
        b.len() >= HDR_LEN,
{
    spec_u32_from_le_bytes(b.subrange(8, 12)) as int
}

/// Whether a frame's header marks the body as a streamed buffer.
pub open spec fn frame_body_streamed(b: Seq<u8>) -> bool
    recommends
        b.len() >= HDR_LEN,
{
    spec_u32_from_le_bytes(b.subrange(12, 16)) >= BODY_STREAM_FLAG
}

/// Body byte length a frame's header declares.
pub open spec fn frame_body_len(b: Seq<u8>) -> int
    recommends
        b.len() >= HDR_LEN,
{
    if frame_body_streamed(b) {
        spec_u32_from_le_bytes(b.subrange(12, 16)) - BODY_STREAM_FLAG
    } else {
        spec_u32_from_le_bytes(b.subrange(12, 16)) as int
    }
}

/// Total frame length the header declares: header plus the three parts.
pub open spec fn spec_frame_len(b: Seq<u8>) -> int
    recommends
        b.len() >= HDR_LEN,
{
    HDR_LEN + frame_cmd_len(b) + frame_head_len(b) + frame_body_len(b)
}

/// Whether a byte sequence is one well-formed frame: the declared lengths
/// account for every byte and the command bytes are valid UTF-8.
pub open spec fn frame_ok(b: Seq<u8>) -> bool {
    &&& b.len() >= HDR_LEN
    &&& b.len() == spec_frame_len(b)
    &&& valid_utf8(b.subrange(HDR_LEN as int, HDR_LEN + frame_cmd_len(b)))
}

/// The message a well-formed frame decodes to.
pub open spec fn spec_decode(b: Seq<u8>) -> MessageV
    recommends
        frame_ok(b),
{
    let cl = frame_cmd_len(b);
    let hl = frame_head_len(b);
    let bl = frame_body_len(b);
    let cmdb = b.subrange(HDR_LEN as int, HDR_LEN + cl);
    let headb = b.subrange(HDR_LEN + cl, HDR_LEN + cl + hl);
    let bodyb = b.subrange(HDR_LEN + cl + hl, HDR_LEN + cl + hl + bl);
    MessageV {
        version: spec_u16_from_le_bytes(b.subrange(0, 2)) as int,
        control: control_of_bits(spec_u32_from_le_bytes(b.subrange(2, 6)) as int),
        cmds: decode_utf8(cmdb),
        heads: if hl == 0 {
            None
        } else {
            Some(headb)
        },
        bodys: if frame_body_streamed(b) {
            MsgBodyV::BoxBuf(bodyb)
        } else if bl == 0 {
            MsgBodyV::Empty
        } else {
            MsgBodyV::Bytes(bodyb)
        },
    }
}

/// The inbound message an outbound one comes back as after one encode-decode
/// round trip: the command defaults to empty, an empty header blob reads as
/// absent, and the body variant follows the stream flag.
pub open spec fn expected_message(m: MessagesV) -> MessageV {
    MessageV {
        version: MSG_VERSION as int,
        control: m.control,
        cmds: match m.cmds {
            Some(s) => s,
            None => Seq::empty(),
        },
        heads: if head_bytes_of(m).len() == 0 {
            None
        } else {
            Some(head_bytes_of(m))
        },
        bodys: if out_body_streamed(m) {
            MsgBodyV::BoxBuf(out_body_bytes(m))
        } else if out_body_bytes(m).len() == 0 {
            MsgBodyV::Empty
        } else {
            MsgBodyV::Bytes(out_body_bytes(m))
        },
    }
}

/// Relies on `String::from_utf8`: it succeeds exactly on valid UTF-8 input,
/// and the returned string's UTF-8 encoding is the input bytes.
#[verifier::external_body]
fn string_from_utf8(b: Vec<u8>) -> (r: Option<String>)
    ensures
        r is Some <==> valid_utf8(b@),
        r is Some ==> encode_utf8(r->Some_0@) == b@,
{
    match String::from_utf8(b) {
        Ok(s) => Some(s),
        Err(_) => None,
    }
}

/// Two's-complement 32-bit image of a control code.
fn control_to_bits(c: i32) -> (f: u32)
    ensures
        f == control_bits(c as int),
{
    if c >= 0 {
        c as u32
    } else {
        ((c as i64) + 0x1_0000_0000i64) as u32
    }
}

/// Control code a two's-complement 32-bit field stands for.
fn control_from_bits(f: u32) -> (c: i32)
    ensures
        c as int == control_of_bits(f as int),
{
    if f < 0x8000_0000 {
        f as i32
    } else {
        ((f as i64) - 0x1_0000_0000i64) as i32
    }
}

/// Encodes an outbound message into its exact wire image.
pub fn encode(m: &Messages) -> (out: Vec<u8>)
    requires
        sendable(m@),
    ensures
        out@ == spec_encode(m@),
{
    let cmdb: Vec<u8> = match &m.cmds {
        Some(s) => s.as_str().as_bytes_vec(),
        None => Vec::new(),
    };
    let headb: Vec<u8> = match &m.heads {
        Some(h) => slice_to_vec(h.as_slice()),
        None => Vec::new(),
    };
    let (bodyb, streamed): (Vec<u8>, bool) = match &m.bodys {
        Some(b) => (slice_to_vec(b.as_slice()), false),
        None => match &m.bodybuf {
            Some(b) => (slice_to_vec(b.as_slice()), true),
            None => (Vec::new(), false),
        },
    };
    let mut bf: u32 = bodyb.len() as u32;
    if streamed {
        bf = bf + BODY_STREAM_FLAG;
    }
    let mut out: Vec<u8> = Vec::new();
    let mut part = u16_to_le_bytes(MSG_VERSION);
    out.append(&mut part);
    let mut part = u32_to_le_bytes(control_to_bits(m.control));
    out.append(&mut part);
    let mut part = u16_to_le_bytes(cmdb.len() as u16);
    out.append(&mut part);
    let mut part = u32_to_le_bytes(headb.len() as u32);
    out.append(&mut part);
    let mut part = u32_to_le_bytes(bf);
    out.append(&mut part);
    let mut cmdb = cmdb;
    out.append(&mut cmdb);
    let mut headb = headb;
    out.append(&mut headb);
    let mut bodyb = bodyb;
    out.append(&mut bodyb);
    out
}

/// Decodes one frame. Returns `Ok` exactly on well-formed frames; a frame
/// whose lengths do not account for its bytes, or whose command bytes are
/// not UTF-8, is a parse error.
pub fn decode(frame: &[u8]) -> (r: Result<Message, Error>)
    ensures
        r is Ok <==> frame_ok(frame@),
        r is Ok ==> r->Ok_0@ == spec_decode(frame@),
        r is Err ==> r->Err_0 is ParseError,
{
    if frame.len() < HDR_LEN {
        return Err(Error::ParseError);
    }
    let version_field = u16_from_le_bytes(slice_subrange(frame, 0, 2));
    let control_field = u32_from_le_bytes(slice_subrange(frame, 2, 6));
    let cl16 = u16_from_le_bytes(slice_subrange(frame, 6, 8));
    let hl32 = u32_from_le_bytes(slice_subrange(frame, 8, 12));
    let bf = u32_from_le_bytes(slice_subrange(frame, 12, 16));
    let streamed = bf >= BODY_STREAM_FLAG;
    let bl32 = if streamed {
        bf - BODY_STREAM_FLAG
    } else {
        bf
    };
    let total: u64 = HDR_LEN as u64 + cl16 as u64 + hl32 as u64 + bl32 as u64;
    if frame.len() as u64 != total {
        return Err(Error::ParseError);
    }
    let cl = cl16 as usize;
    let hl = hl32 as usize;
    let bl = bl32 as usize;
    let c_end = HDR_LEN + cl;
    let h_end = c_end + hl;
    let b_end = h_end + bl;
    let cmdb = slice_to_vec(slice_subrange(frame, HDR_LEN, c_end));
    let cmds = match string_from_utf8(cmdb) {
        Some(s) => s,
        None => {
            return Err(Error::ParseError);
        },
    };
    proof {
        encode_utf8_decode_utf8(cmds@);
    }
    let heads = if hl == 0 {
        None
    } else {
        Some(slice_to_vec(slice_subrange(frame, c_end, h_end)))
    };
    let bodyb = slice_to_vec(slice_subrange(frame, h_end, b_end));
    let bodys = if streamed {
        MsgBody::BoxBuf(bodyb)
    } else if bl == 0 {
        MsgBody::Empty
    } else {
        MsgBody::Bytes(bodyb)
    };
    Ok(
        Message {
            version: version_field,
            control: control_from_bits(control_field),
            cmds,
            heads,
            bodys,
        },
    )
}

/// Total frame length a 16-byte header prefix declares, for a reader that
/// must know how many bytes make up the frame it has started to receive.
pub fn frame_total_len(header: &[u8]) -> (n: u64)
    requires
        header@.len() >= HDR_LEN,
    ensures
        n == spec_frame_len(header@),
{
    let cl16 = u16_from_le_bytes(slice_subrange(header, 6, 8));
    let hl32 = u32_from_le_bytes(slice_subrange(header, 8, 12));
    let bf = u32_from_le_bytes(slice_subrange(header, 12, 16));
    let bl32 = if bf >= BODY_STREAM_FLAG {
        bf - BODY_STREAM_FLAG
    } else {
        bf
    };
    HDR_LEN as u64 + cl16 as u64 + hl32 as u64 + bl32 as u64
}

/// Law: every encoded sendable message is one well-formed frame, and decoding
/// it yields exactly the inbound image of the original, whatever its fields.
pub proof fn lemma_encode_decode(m: MessagesV)
    requires
        sendable(m),
    ensures
        frame_ok(spec_encode(m)),
        spec_decode(spec_encode(m)) == expected_message(m),
{
    lemma_auto_spec_u16_to_from_le_bytes();
    lemma_auto_spec_u32_to_from_le_bytes();
    let b = spec_encode(m);
    let cb = cmd_bytes_of(m);
    let hb = head_bytes_of(m);
    let bb = out_body_bytes(m);
    assert(b.subrange(0, 2) =~= spec_u16_to_le_bytes(MSG_VERSION));
    assert(b.subrange(2, 6) =~= spec_u32_to_le_bytes(control_bits(m.control) as u32));
    assert(b.subrange(6, 8) =~= spec_u16_to_le_bytes(cb.len() as u16));
    assert(b.subrange(8, 12) =~= spec_u32_to_le_bytes(hb.len() as u32));
    assert(b.subrange(12, 16) =~= spec_u32_to_le_bytes(body_len_field(m) as u32));
    assert(frame_cmd_len(b) == cb.len());
    assert(frame_head_len(b) == hb.len());
    assert(frame_body_streamed(b) == out_body_streamed(m));
    assert(frame_body_len(b) == bb.len());
    let cl = cb.len() as int;
    let hl = hb.len() as int;
    let bl = bb.len() as int;
    assert(b.subrange(HDR_LEN as int, HDR_LEN + cl) =~= cb);
    assert(b.subrange(HDR_LEN + cl, HDR_LEN + cl + hl) =~= hb);
    assert(b.subrange(HDR_LEN + cl + hl, HDR_LEN + cl + hl + bl) =~= bb);
    match m.cmds {
        Some(s) => {
            encode_utf8_valid_utf8(s);
            encode_utf8_decode_utf8(s);
        },
        None => {
            assert(cb =~= Seq::<u8>::empty());
            encode_utf8_valid_utf8(Seq::<char>::empty());
            encode_utf8_decode_utf8(Seq::<char>::empty());
            assert(encode_utf8(Seq::<char>::empty()) =~= Seq::<u8>::empty());
        },
    }
}

} // verus!

//! Frame model: the value types for outbound (`Messages`) and inbound
//! (`Message`) protocol units, and the three-variant body representation.

use vstd::prelude::*;

verus! {

/// Outbound protocol unit, as handed to `send` and drained by the sender loop.
///
/// `bodys` holds a fully materialized payload; `bodybuf` stands for a shared
/// streamed buffer queued without an extra copy. When both are present the
/// materialized payload wins.
#[derive(Clone)]
pub struct Messages {
    pub control: i32,
    pub cmds: Option<String>,
    pub heads: Option<Vec<u8>>,
    pub bodys: Option<Vec<u8>>,
    pub bodybuf: Option<Vec<u8>>,
}

/// Mathematical model of a `Messages` value.
pub struct MessagesV {
    pub control: int,
    pub cmds: Option<Seq<char>>,
    pub heads: Option<Seq<u8>>,
    pub bodys: Option<Seq<u8>>,
    pub bodybuf: Option<Seq<u8>>,
}

/// Model of an optional byte buffer.
pub open spec fn opt_bytes_view(o: Option<Vec<u8>>) -> Option<Seq<u8>> {
    match o {
        Some(v) => Some(v@),
        None => None,
    }
}

impl View for Messages {
    type V = MessagesV;

    open spec fn view(&self) -> MessagesV {
        MessagesV {
            control: self.control as int,
            cmds: self.cmds.deep_view(),
            heads: opt_bytes_view(self.heads),
            bodys: opt_bytes_view(self.bodys),
            bodybuf: opt_bytes_view(self.bodybuf),
        }
    }
}

/// Body of a decoded message: absent, fully materialized, or a streamed
/// buffer already collected into owned bytes.
#[derive(Clone)]
pub enum MsgBody {
    Empty,
    Bytes(Vec<u8>),
    BoxBuf(Vec<u8>),
}

/// Mathematical model of a `MsgBody` value.
pub enum MsgBodyV {
    Empty,
    Bytes(Seq<u8>),
    BoxBuf(Seq<u8>),
}

impl View for MsgBody {
    type V = MsgBodyV;

    open spec fn view(&self) -> MsgBodyV {
        match self {
            MsgBody::Empty => MsgBodyV::Empty,
            MsgBody::Bytes(v) => MsgBodyV::Bytes(v@),
            MsgBody::BoxBuf(v) => MsgBodyV::BoxBuf(v@),
        }
    }
}

/// Byte length of a body model, uniform across the three variants.
pub open spec fn body_len(b: MsgBodyV) -> nat {
    match b {
        MsgBodyV::Empty => 0,
        MsgBodyV::Bytes(v) => v.len(),
        MsgBodyV::BoxBuf(v) => v.len(),
    }
}

/// The bytes a body model carries, uniform across the three variants.
pub open spec fn body_bytes(b: MsgBodyV) -> Seq<u8> {
    match b {
        MsgBodyV::Empty => Seq::empty(),
        MsgBodyV::Bytes(v) => v,
        MsgBodyV::BoxBuf(v) => v,
    }
}

impl MsgBody {
    /// Byte length of the body, whichever variant holds it.
    pub fn len(&self) -> (n: usize)
        ensures
            n == body_len(self@),
    {
        match self {
            MsgBody::Empty => 0,
            MsgBody::Bytes(v) => v.len(),
            MsgBody::BoxBuf(v) => v.len(),
        }
    }
}

/// Inbound protocol unit, as produced by the decoder.
#[derive(Clone)]
pub struct Message {
    pub version: u16,
    pub control: i32,
    pub cmds: String,
    pub heads: Option<Vec<u8>>,
    pub bodys: MsgBody,
}

/// Mathematical model of a `Message` value.
pub struct MessageV {
    pub version: int,
    pub control: int,
    pub cmds: Seq<char>,
    pub heads: Option<Seq<u8>>,
    pub bodys: MsgBodyV,
}

impl View for Message {
    type V = MessageV;

    open spec fn view(&self) -> MessageV {
        MessageV {
            version: self.version as int,
            control: self.control as int,
            cmds: self.cmds@,
            heads: opt_bytes_view(self.heads),
            bodys: self.bodys@,
        }
    }
}

impl Message {
    /// An empty message: version and control zero, no command, no header,
    /// no body.
    pub fn new() -> (m: Self)
        ensures
            m@.version == 0,
            m@.control == 0,
            m@.cmds.len() == 0,
            m@.heads is None,
            m@.bodys is Empty,
    {
        Self {
            version: 0,
            control: 0,
            cmds: String::new(),
            heads: None,
            bodys: MsgBody::Empty,
        }
    }

    /// Moves the body out, leaving the message with an empty body; the other
    /// fields are untouched. A move-out-and-replace, not a clone.
    pub fn own_bodys(&mut self) -> (b: MsgBody)
        ensures
            b@ == old(self)@.bodys,
            final(self)@.bodys is Empty,
            final(self)@.version == old(self)@.version,
            final(self)@.control == old(self)@.control,
            final(self)@.cmds == old(self)@.cmds,
            final(self)@.heads == old(self)@.heads,
    {
        let mut out = MsgBody::Empty;
        core::mem::swap(&mut out, &mut self.bodys);
        out
    }

    /// A stable owned-bytes view of the body: `None` when the body is absent,
    /// otherwise the body's bytes, materializing the streamed variant.
    pub fn body_box(&self) -> (r: Option<Vec<u8>>)
        ensures
            r is Some <==> !(self@.bodys is Empty),
            r is Some ==> r->0@ == body_bytes(self@.bodys),
    {
        match &self.bodys {
            MsgBody::Empty => None,
            MsgBody::Bytes(v) => Some(vstd::slice::slice_to_vec(v.as_slice())),
            MsgBody::BoxBuf(v) => Some(vstd::slice::slice_to_vec(v.as_slice())),
        }
    }
}

/// Outbound unit with a structured body, mirror of `Messages` over `MsgBody`.
pub struct Messageus {
    pub control: i32,
    pub cmds: Option<String>,
    pub heads: Option<Vec<u8>>,
    pub bodys: MsgBody,
}

/// Inbound unit with a flat optional body.
pub struct Messageu {
    pub version: u16,
    pub control: i32,
    pub cmds: String,
    pub heads: Option<Vec<u8>>,
    pub bodys: Option<Vec<u8>>,
}

impl Messageu {
    /// An empty unit: version and control zero, no command, no header,
    /// no body.
    pub fn new() -> (m: Self)
        ensures
            m.version == 0,
            m.control == 0,
            m.cmds@.len() == 0,
            m.heads is None,
            m.bodys is None,
    {
        Self {
            version: 0,
            control: 0,
            cmds: String::new(),
            heads: None,
            bodys: None,
        }
    }
}

} // verus!

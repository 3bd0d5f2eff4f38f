//! Inbound messages and outbound payloads.

use vstd::prelude::*;
use vstd::string::StrSliceExecFns;
use vstd::utf8::encode_utf8;

verus! {

/// How the engine stores a published message.
#[derive(Clone, Copy, Debug, PartialEq, Eq, Structural)]
pub enum DeliveryMode {
    Transient,
    Persistent,
}

impl DeliveryMode {
    /// The mode's wire code: transient messages carry 1, persistent 2.
    pub fn code(&self) -> (r: u8)
        ensures
            r == (match self {
                DeliveryMode::Transient => 1u8,
                DeliveryMode::Persistent => 2u8,
            }),
    {
        match self {
            DeliveryMode::Transient => 1,
            DeliveryMode::Persistent => 2,
        }
    }
}

/// Content encoding advertised with a published message.
#[derive(Clone, Copy, Debug, PartialEq, Eq, Structural)]
pub enum ContentEncoding {
    Zstd,
    Lz4,
    Zlib,
    Null,
}

/// An inbound message: an owned byte payload plus optional content-type
/// metadata. Each dispatch receives its own value, never a shared alias.
#[derive(Debug)]
pub struct Message {
    pub body: Vec<u8>,
    pub content_type: Option<String>,
}

/// Copy a byte vector; the copy holds the same bytes.
pub fn clone_bytes(v: &Vec<u8>) -> (r: Vec<u8>)
    ensures
        r@ == v@,
{
    let r = v.clone();
    proof {
        assert(v@ =~= r@);
    }
    r
}

impl Clone for Message {
    /// The copy carries byte-identical content.
    fn clone(&self) -> (r: Self)
        ensures
            r@ == self@,
    {
        Message {
            body: clone_bytes(&self.body),
            content_type: match &self.content_type {
                Some(c) => Some(c.clone()),
                None => None,
            },
        }
    }
}

/// The mathematical value of a [`Message`].
pub struct MessageView {
    pub body: Seq<u8>,
    pub content_type: Option<Seq<char>>,
}

impl View for Message {
    type V = MessageView;

    open spec fn view(&self) -> MessageView {
        MessageView {
            body: self.body@,
            content_type: match self.content_type {
                Some(c) => Some(c@),
                None => None,
            },
        }
    }
}

/// A body handed in by the host caller: raw bytes, or text to be sent as
/// its UTF-8 encoding.
#[derive(Debug)]
pub enum Payload {
    Bytes(Vec<u8>),
    Text(String),
}

/// The bytes that a [`Payload`] publishes: raw bytes unchanged, text as
/// its UTF-8 encoding.
pub open spec fn spec_payload_bytes(p: Payload) -> Seq<u8> {
    match p {
        Payload::Bytes(b) => b@,
        Payload::Text(s) => encode_utf8(s@),
    }
}

/// Normalise a payload to the byte sequence that goes on the wire.
pub fn payload_bytes(p: Payload) -> (r: Vec<u8>)
    ensures
        r@ == spec_payload_bytes(p),
{
    match p {
        Payload::Bytes(b) => b,
        Payload::Text(s) => s.as_str().as_bytes_vec(),
    }
}

} // verus!

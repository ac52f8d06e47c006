//! The byte form of the messages that cross the process boundary.
//!
//! A message is one tag byte followed by the fields of the variant. Numbers of more than
//! one byte are little-endian. A receiver that meets a tag which it does not know skips
//! the message, so that the two processes need not be of the same version.

use crate::client::ClientEvent;
use crate::client::Value;
use crate::engine::EngineEvent;
use vstd::bytes::spec_u32_from_le_bytes;
use vstd::bytes::spec_u32_to_le_bytes;
use vstd::bytes::spec_u64_from_le_bytes;
use vstd::bytes::spec_u64_to_le_bytes;
use vstd::bytes::u32_from_le_bytes;
use vstd::bytes::u32_to_le_bytes;
use vstd::bytes::u64_from_le_bytes;
use vstd::bytes::u64_to_le_bytes;
use vstd::prelude::*;
use vstd::slice::slice_subrange;

verus! {

/// What a sequence of bytes turned out to be.
#[derive(Clone, Copy, Debug, PartialEq, Eq, Structural)]
pub enum Frame<T> {
    /// A message that this version knows.
    Event(T),
    /// A message with a tag that this version does not know. It is to be skipped.
    Unknown,
    /// No message: the bytes are too few or too many for their tag.
    Malformed,
}

impl Value {
    /// The bytes that stand for the value.
    pub open spec fn encoding(self) -> Seq<u8> {
        match self {
            Value::Digital => seq![0u8],
            Value::Analog { x } => seq![1u8] + spec_u32_to_le_bytes(x),
            Value::Velocity { x } => seq![2u8] + spec_u32_to_le_bytes(x),
            Value::Velocity2 { x, y } => seq![3u8] + spec_u32_to_le_bytes(x)
                + spec_u32_to_le_bytes(y),
            Value::Position { x } => seq![4u8] + spec_u32_to_le_bytes(x),
            Value::Position2 { x, y } => seq![5u8] + spec_u32_to_le_bytes(x)
                + spec_u32_to_le_bytes(y),
        }
    }

    /// The value that `bytes` stand for.
    pub open spec fn decoding(bytes: Seq<u8>) -> Frame<Value> {
        if bytes.len() == 0 {
            Frame::Malformed
        } else if bytes[0] > 5 {
            Frame::Unknown
        } else if bytes[0] == 0 {
            if bytes.len() == 1 {
                Frame::Event(Value::Digital)
            } else {
                Frame::Malformed
            }
        } else if bytes[0] == 3 || bytes[0] == 5 {
            if bytes.len() == 9 {
                let x = spec_u32_from_le_bytes(bytes.subrange(1, 5));
                let y = spec_u32_from_le_bytes(bytes.subrange(5, 9));
                if bytes[0] == 3 {
                    Frame::Event(Value::Velocity2 { x, y })
                } else {
                    Frame::Event(Value::Position2 { x, y })
                }
            } else {
                Frame::Malformed
            }
        } else {
            if bytes.len() == 5 {
                let x = spec_u32_from_le_bytes(bytes.subrange(1, 5));
                if bytes[0] == 1 {
                    Frame::Event(Value::Analog { x })
                } else if bytes[0] == 2 {
                    Frame::Event(Value::Velocity { x })
                } else {
                    Frame::Event(Value::Position { x })
                }
            } else {
                Frame::Malformed
            }
        }
    }

    /// Appends the bytes that stand for the value to `out`.
    pub fn encode_into(&self, out: &mut Vec<u8>)
        ensures
            final(out)@ == old(out)@ + self.encoding(),
    {
        match *self {
            Value::Digital => {
                out.push(0u8);
            },
            Value::Analog { x } => {
                out.push(1u8);
                append_u32(out, x);
            },
            Value::Velocity { x } => {
                out.push(2u8);
                append_u32(out, x);
            },
            Value::Velocity2 { x, y } => {
                out.push(3u8);
                append_u32(out, x);
                append_u32(out, y);
            },
            Value::Position { x } => {
                out.push(4u8);
                append_u32(out, x);
            },
            Value::Position2 { x, y } => {
                out.push(5u8);
                append_u32(out, x);
                append_u32(out, y);
            },
        }
    }

    /// Reads the value that `bytes` stand for.
    pub fn decode(bytes: &[u8]) -> (frame: Frame<Value>)
        ensures
            frame == Value::decoding(bytes@),
    {
        let len = bytes.len();
        if len == 0 {
            return Frame::Malformed;
        }
        let tag: u8 = bytes[0];
        if tag > 5 {
            Frame::Unknown
        } else if tag == 0 {
            if len == 1 {
                Frame::Event(Value::Digital)
            } else {
                Frame::Malformed
            }
        } else if tag == 3 || tag == 5 {
            if len == 9 {
                let x = u32_from_le_bytes(slice_subrange(bytes, 1, 5));
                let y = u32_from_le_bytes(slice_subrange(bytes, 5, 9));
                if tag == 3 {
                    Frame::Event(Value::Velocity2 { x, y })
                } else {
                    Frame::Event(Value::Position2 { x, y })
                }
            } else {
                Frame::Malformed
            }
        } else {
            if len == 5 {
                let x = u32_from_le_bytes(slice_subrange(bytes, 1, 5));
                if tag == 1 {
                    Frame::Event(Value::Analog { x })
                } else if tag == 2 {
                    Frame::Event(Value::Velocity { x })
                } else {
                    Frame::Event(Value::Position { x })
                }
            } else {
                Frame::Malformed
            }
        }
    }
}

fn append_u32(out: &mut Vec<u8>, number: u32)
    ensures
        final(out)@ == old(out)@ + spec_u32_to_le_bytes(number),
{
    let mut bytes = u32_to_le_bytes(number);
    out.append(&mut bytes);
}

fn append_u64(out: &mut Vec<u8>, number: u64)
    ensures
        final(out)@ == old(out)@ + spec_u64_to_le_bytes(number),
{
    let mut bytes = u64_to_le_bytes(number);
    out.append(&mut bytes);
}

impl ClientEvent {
    /// The bytes that stand for the event.
    pub open spec fn encoding(self) -> Seq<u8> {
        match self {
            ClientEvent::CloseRequested => seq![0u8],
            ClientEvent::BeginAction { id, value } => seq![1u8, id] + value.encoding(),
            ClientEvent::EndAction { id } => seq![2u8, id],
        }
    }

    /// The event that `bytes` stand for.
    pub open spec fn decoding(bytes: Seq<u8>) -> Frame<ClientEvent> {
        if bytes.len() == 0 {
            Frame::Malformed
        } else if bytes[0] > 2 {
            Frame::Unknown
        } else if bytes[0] == 0 {
            if bytes.len() == 1 {
                Frame::Event(ClientEvent::CloseRequested)
            } else {
                Frame::Malformed
            }
        } else if bytes.len() < 2 {
            Frame::Malformed
        } else if bytes[0] == 2 {
            if bytes.len() == 2 {
                Frame::Event(ClientEvent::EndAction { id: bytes[1] })
            } else {
                Frame::Malformed
            }
        } else {
            match Value::decoding(bytes.skip(2)) {
                Frame::Event(value) => Frame::Event(
                    ClientEvent::BeginAction { id: bytes[1], value },
                ),
                Frame::Unknown => Frame::Unknown,
                Frame::Malformed => Frame::Malformed,
            }
        }
    }

    /// The bytes that stand for the event.
    pub fn encode(&self) -> (bytes: Vec<u8>)
        ensures
            bytes@ == self.encoding(),
    {
        let mut bytes: Vec<u8> = Vec::new();
        match *self {
            ClientEvent::CloseRequested => {
                bytes.push(0u8);
            },
            ClientEvent::BeginAction { id, value } => {
                bytes.push(1u8);
                bytes.push(id);
                value.encode_into(&mut bytes);
            },
            ClientEvent::EndAction { id } => {
                bytes.push(2u8);
                bytes.push(id);
            },
        }
        bytes
    }

    /// Reads the event that `bytes` stand for.
    pub fn decode(bytes: &[u8]) -> (frame: Frame<ClientEvent>)
        ensures
            frame == ClientEvent::decoding(bytes@),
    {
        let len = bytes.len();
        if len == 0 {
            return Frame::Malformed;
        }
        let tag: u8 = bytes[0];
        if tag > 2 {
            Frame::Unknown
        } else if tag == 0 {
            if len == 1 {
                Frame::Event(ClientEvent::CloseRequested)
            } else {
                Frame::Malformed
            }
        } else if len < 2 {
            Frame::Malformed
        } else if tag == 2 {
            if len == 2 {
                Frame::Event(ClientEvent::EndAction { id: bytes[1] })
            } else {
                Frame::Malformed
            }
        } else {
            let rest = slice_subrange(bytes, 2, len);
            match Value::decode(rest) {
                Frame::Event(value) => Frame::Event(
                    ClientEvent::BeginAction { id: bytes[1], value },
                ),
                Frame::Unknown => Frame::Unknown,
                Frame::Malformed => Frame::Malformed,
            }
        }
    }
}

impl EngineEvent {
    /// The bytes that stand for the event.
    pub open spec fn encoding(self) -> Seq<u8> {
        match self {
            EngineEvent::Closed => seq![0u8],
            EngineEvent::BeginFixedUpdate(tick) => seq![1u8] + spec_u64_to_le_bytes(tick),
            EngineEvent::EndFixedUpdate(tick) => seq![2u8] + spec_u64_to_le_bytes(tick),
        }
    }

    /// The event that `bytes` stand for.
    pub open spec fn decoding(bytes: Seq<u8>) -> Frame<EngineEvent> {
        if bytes.len() == 0 {
            Frame::Malformed
        } else if bytes[0] > 2 {
            Frame::Unknown
        } else if bytes[0] == 0 {
            if bytes.len() == 1 {
                Frame::Event(EngineEvent::Closed)
            } else {
                Frame::Malformed
            }
        } else if bytes.len() == 9 {
            let tick = spec_u64_from_le_bytes(bytes.subrange(1, 9));
            if bytes[0] == 1 {
                Frame::Event(EngineEvent::BeginFixedUpdate(tick))
            } else {
                Frame::Event(EngineEvent::EndFixedUpdate(tick))
            }
        } else {
            Frame::Malformed
        }
    }

    /// The bytes that stand for the event.
    pub fn encode(&self) -> (bytes: Vec<u8>)
        ensures
            bytes@ == self.encoding(),
    {
        let mut bytes: Vec<u8> = Vec::new();
        match *self {
            EngineEvent::Closed => {
                bytes.push(0u8);
            },
            EngineEvent::BeginFixedUpdate(tick) => {
                bytes.push(1u8);
                append_u64(&mut bytes, tick);
            },
            EngineEvent::EndFixedUpdate(tick) => {
                bytes.push(2u8);
                append_u64(&mut bytes, tick);
            },
        }
        bytes
    }

    /// Reads the event that `bytes` stand for.
    pub fn decode(bytes: &[u8]) -> (frame: Frame<EngineEvent>)
        ensures
            frame == EngineEvent::decoding(bytes@),
    {
        let len = bytes.len();
        if len == 0 {
            return Frame::Malformed;
        }
        let tag: u8 = bytes[0];
        if tag > 2 {
            Frame::Unknown
        } else if tag == 0 {
            if len == 1 {
                Frame::Event(EngineEvent::Closed)
            } else {
                Frame::Malformed
            }
        } else if len == 9 {
            let tick = u64_from_le_bytes(slice_subrange(bytes, 1, 9));
            if tag == 1 {
                Frame::Event(EngineEvent::BeginFixedUpdate(tick))
            } else {
                Frame::Event(EngineEvent::EndFixedUpdate(tick))
            }
        } else {
            Frame::Malformed
        }
    }
}

/// Decoding what was encoded gives the value back, for every value.
pub proof fn lemma_value_round_trip(value: Value)
    ensures
        Value::decoding(value.encoding()) == Frame::Event(value),
{
    vstd::bytes::lemma_auto_spec_u32_to_from_le_bytes();
    let bytes = value.encoding();
    match value {
        Value::Digital => {},
        Value::Analog { x } | Value::Velocity { x } | Value::Position { x } => {
            assert(bytes.subrange(1, 5) =~= spec_u32_to_le_bytes(x));
        },
        Value::Velocity2 { x, y } | Value::Position2 { x, y } => {
            assert(bytes.subrange(1, 5) =~= spec_u32_to_le_bytes(x));
            assert(bytes.subrange(5, 9) =~= spec_u32_to_le_bytes(y));
        },
    }
}

/// Decoding what was encoded gives the event back, for every client event.
pub proof fn lemma_client_event_round_trip(event: ClientEvent)
    ensures
        ClientEvent::decoding(event.encoding()) == Frame::Event(event),
{
    match event {
        ClientEvent::BeginAction { id, value } => {
            lemma_value_round_trip(value);
            assert(event.encoding().skip(2) =~= value.encoding());
        },
        _ => {},
    }
}

/// Decoding what was encoded gives the event back, for every engine event.
pub proof fn lemma_engine_event_round_trip(event: EngineEvent)
    ensures
        EngineEvent::decoding(event.encoding()) == Frame::Event(event),
{
    vstd::bytes::lemma_auto_spec_u64_to_from_le_bytes();
    let bytes = event.encoding();
    match event {
        EngineEvent::Closed => {},
        EngineEvent::BeginFixedUpdate(tick) | EngineEvent::EndFixedUpdate(tick) => {
            assert(bytes.subrange(1, 9) =~= spec_u64_to_le_bytes(tick));
        },
    }
}

/// Only its encoding is decoded to a value: bytes that stand for a value are the bytes
/// that encoding the value gives.
pub proof fn lemma_value_decoding_is_exact(bytes: Seq<u8>, value: Value)
    requires
        Value::decoding(bytes) == Frame::Event(value),
    ensures
        bytes == value.encoding(),
{
    vstd::bytes::lemma_auto_spec_u32_to_from_le_bytes();
    if bytes.len() == 5 {
        assert(bytes =~= seq![bytes[0]] + bytes.subrange(1, 5));
    } else if bytes.len() == 9 {
        assert(bytes =~= seq![bytes[0]] + bytes.subrange(1, 5) + bytes.subrange(5, 9));
    } else {
        assert(bytes =~= seq![0u8]);
    }
}

/// Only its encoding is decoded to a client event.
pub proof fn lemma_client_event_decoding_is_exact(bytes: Seq<u8>, event: ClientEvent)
    requires
        ClientEvent::decoding(bytes) == Frame::Event(event),
    ensures
        bytes == event.encoding(),
{
    match event {
        ClientEvent::CloseRequested => {
            assert(bytes =~= seq![0u8]);
        },
        ClientEvent::BeginAction { id, value } => {
            lemma_value_decoding_is_exact(bytes.skip(2), value);
            assert(bytes =~= seq![1u8, id] + bytes.skip(2));
        },
        ClientEvent::EndAction { id } => {
            assert(bytes =~= seq![2u8, id]);
        },
    }
}

/// Only its encoding is decoded to an engine event.
pub proof fn lemma_engine_event_decoding_is_exact(bytes: Seq<u8>, event: EngineEvent)
    requires
        EngineEvent::decoding(bytes) == Frame::Event(event),
    ensures
        bytes == event.encoding(),
{
    vstd::bytes::lemma_auto_spec_u64_to_from_le_bytes();
    if bytes.len() == 9 {
        assert(bytes =~= seq![bytes[0]] + bytes.subrange(1, 9));
    } else {
        assert(bytes =~= seq![0u8]);
    }
}

/// A message whose tag is not known is skipped, whatever follows the tag: it is neither
/// taken for a known event nor for a malformed one.
pub proof fn lemma_unknown_tag_is_skipped(bytes: Seq<u8>)
    requires
        bytes.len() > 0,
        bytes[0] > 2,
    ensures
        ClientEvent::decoding(bytes) == Frame::<ClientEvent>::Unknown,
        EngineEvent::decoding(bytes) == Frame::<EngineEvent>::Unknown,
{
}

} // verus!

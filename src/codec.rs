//! The two frame families of a portal and their byte form.
//!
//! A frame is a whole overlay message, so it delimits itself: the first byte
//! is the variant tag, and a `Payload` carries every byte after it.
use vstd::prelude::*;

verus! {

pub const TAG_PING: u8 = 0;

pub const TAG_PONG: u8 = 1;

pub const TAG_PAYLOAD: u8 = 2;

pub const TAG_DISCONNECT: u8 = 3;

pub const TAG_INTERNAL_DISCONNECT: u8 = 0;

/// A frame exchanged between the two workers of a portal.
#[derive(PartialEq, Eq, Debug, Clone)]
pub enum PortalMessage {
    /// The inlet asks for the far end to be materialized.
    Ping,
    /// The outlet acknowledges; its route comes with the overlay's return route.
    Pong,
    /// Opaque TCP bytes, in either direction.
    Payload(Vec<u8>),
    /// The sender is tearing down.
    Disconnect,
}

/// The mathematical form of a `PortalMessage`.
pub enum MessageView {
    Ping,
    Pong,
    Payload(Seq<u8>),
    Disconnect,
}

impl View for PortalMessage {
    type V = MessageView;

    open spec fn view(&self) -> MessageView {
        match self {
            PortalMessage::Ping => MessageView::Ping,
            PortalMessage::Pong => MessageView::Pong,
            PortalMessage::Payload(b) => MessageView::Payload(b@),
            PortalMessage::Disconnect => MessageView::Disconnect,
        }
    }
}

/// A frame sent by a receive processor to its own worker.
#[derive(PartialEq, Eq, Debug, Clone)]
pub enum PortalInternalMessage {
    /// The read half reached end of stream or failed.
    Disconnect,
}

/// Why a frame could not be read.
#[derive(PartialEq, Eq, Structural, Debug, Clone, Copy)]
pub enum DecodeError {
    /// The frame holds no byte at all.
    Empty,
    /// The first byte names no variant.
    UnknownTag,
    /// A variant without data is followed by further bytes.
    TrailingBytes,
}

/// The bytes of a portal frame.
pub open spec fn spec_encode(m: MessageView) -> Seq<u8> {
    match m {
        MessageView::Ping => seq![TAG_PING],
        MessageView::Pong => seq![TAG_PONG],
        MessageView::Payload(b) => seq![TAG_PAYLOAD] + b,
        MessageView::Disconnect => seq![TAG_DISCONNECT],
    }
}

/// What a sequence of bytes reads as, as a portal frame.
pub open spec fn spec_decode(b: Seq<u8>) -> Result<MessageView, DecodeError> {
    if b.len() == 0 {
        Err(DecodeError::Empty)
    } else if b[0] == TAG_PAYLOAD {
        Ok(MessageView::Payload(b.drop_first()))
    } else if b[0] != TAG_PING && b[0] != TAG_PONG && b[0] != TAG_DISCONNECT {
        Err(DecodeError::UnknownTag)
    } else if b.len() != 1 {
        Err(DecodeError::TrailingBytes)
    } else if b[0] == TAG_PING {
        Ok(MessageView::Ping)
    } else if b[0] == TAG_PONG {
        Ok(MessageView::Pong)
    } else {
        Ok(MessageView::Disconnect)
    }
}

/// The bytes of an internal frame.
pub open spec fn spec_encode_internal() -> Seq<u8> {
    seq![TAG_INTERNAL_DISCONNECT]
}

/// What a sequence of bytes reads as, as an internal frame.
pub open spec fn spec_decode_internal(b: Seq<u8>) -> Result<(), DecodeError> {
    if b.len() == 0 {
        Err(DecodeError::Empty)
    } else if b[0] != TAG_INTERNAL_DISCONNECT {
        Err(DecodeError::UnknownTag)
    } else if b.len() != 1 {
        Err(DecodeError::TrailingBytes)
    } else {
        Ok(())
    }
}

impl PortalMessage {
    /// Writes the frame as bytes.
    pub fn encode(&self) -> (r: Vec<u8>)
        ensures
            r@ == spec_encode(self@),
    {
        match self {
            PortalMessage::Ping => vec![TAG_PING],
            PortalMessage::Pong => vec![TAG_PONG],
            PortalMessage::Disconnect => vec![TAG_DISCONNECT],
            PortalMessage::Payload(b) => {
                let mut r: Vec<u8> = Vec::new();
                r.push(TAG_PAYLOAD);
                let mut i: usize = 0;
                while i < b.len()
                    invariant
                        i <= b.len(),
                        r@ == seq![TAG_PAYLOAD] + b@.subrange(0, i as int),
                    decreases b.len() - i,
                {
                    r.push(b[i]);
                    i += 1;
                    assert(r@ =~= seq![TAG_PAYLOAD] + b@.subrange(0, i as int));
                }
                assert(b@.subrange(0, b@.len() as int) =~= b@);
                r
            },
        }
    }

    /// Reads a frame from bytes.
    pub fn decode(b: &Vec<u8>) -> (r: Result<PortalMessage, DecodeError>)
        ensures
            match (r, spec_decode(b@)) {
                (Ok(m), Ok(v)) => m@ == v,
                (Err(e), Err(f)) => e == f,
                _ => false,
            },
    {
        if b.len() == 0 {
            return Err(DecodeError::Empty);
        }
        let tag = b[0];
        if tag == TAG_PAYLOAD {
            let mut p: Vec<u8> = Vec::with_capacity(b.len() - 1);
            let mut i: usize = 1;
            while i < b.len()
                invariant
                    1 <= i <= b.len(),
                    p@ == b@.subrange(1, i as int),
                decreases b.len() - i,
            {
                p.push(b[i]);
                i += 1;
                assert(p@ =~= b@.subrange(1, i as int));
            }
            assert(p@ =~= b@.drop_first());
            Ok(PortalMessage::Payload(p))
        } else if tag != TAG_PING && tag != TAG_PONG && tag != TAG_DISCONNECT {
            Err(DecodeError::UnknownTag)
        } else if b.len() != 1 {
            Err(DecodeError::TrailingBytes)
        } else if tag == TAG_PING {
            Ok(PortalMessage::Ping)
        } else if tag == TAG_PONG {
            Ok(PortalMessage::Pong)
        } else {
            Ok(PortalMessage::Disconnect)
        }
    }
}

impl PortalInternalMessage {
    /// Writes the frame as bytes.
    pub fn encode(&self) -> (r: Vec<u8>)
        ensures
            r@ == spec_encode_internal(),
    {
        vec![TAG_INTERNAL_DISCONNECT]
    }

    /// Reads a frame from bytes.
    pub fn decode(b: &Vec<u8>) -> (r: Result<PortalInternalMessage, DecodeError>)
        ensures
            match (r, spec_decode_internal(b@)) {
                (Ok(_), Ok(_)) => true,
                (Err(e), Err(f)) => e == f,
                _ => false,
            },
    {
        if b.len() == 0 {
            Err(DecodeError::Empty)
        } else if b[0] != TAG_INTERNAL_DISCONNECT {
            Err(DecodeError::UnknownTag)
        } else if b.len() != 1 {
            Err(DecodeError::TrailingBytes)
        } else {
            Ok(PortalInternalMessage::Disconnect)
        }
    }
}

/// Reading back the bytes of any portal frame gives that frame.
pub proof fn lemma_decode_encode(m: MessageView)
    ensures
        spec_decode(spec_encode(m)) == Ok::<MessageView, DecodeError>(m),
{
    if let MessageView::Payload(b) = m {
        assert((seq![TAG_PAYLOAD] + b).drop_first() =~= b);
    }
}

/// A byte sequence that reads as a portal frame is exactly that frame's bytes.
pub proof fn lemma_encode_decode(b: Seq<u8>)
    requires
        spec_decode(b) is Ok,
    ensures
        spec_encode(spec_decode(b)->Ok_0) == b,
{
    if b[0] == TAG_PAYLOAD {
        assert(seq![TAG_PAYLOAD] + b.drop_first() =~= b);
    } else {
        assert(seq![b[0]] =~= b);
    }
}

/// The internal frame reads back as itself.
pub proof fn lemma_decode_encode_internal()
    ensures
        spec_decode_internal(spec_encode_internal()) == Ok::<(), DecodeError>(()),
{
}

} // verus!

//! Length-prefixed framing of request-response messages, and the message
//! shapes of the ACL and card-fetch protocols.

use vstd::prelude::*;
use crate::proto::{AclMessage, CapabilityCard};
use crate::wire::{len_delimited, put_bytes, put_len_delimited, put_string_field, string_field};

verus! {

/// Largest message body a frame may carry (1 MiB).
pub const MAX_MESSAGE_BYTES: usize = 1048576;

/// Why a frame cannot be produced or read.
#[derive(Debug, Clone, Copy, PartialEq, Eq)]
pub enum FrameError {
    /// The body exceeds `MAX_MESSAGE_BYTES`.
    TooLarge,
    /// The input ends before the frame does.
    Truncated,
}

/// Big-endian bytes of a 32-bit length.
pub open spec fn be32(n: nat) -> Seq<u8> {
    seq![((n / 16777216) % 256) as u8, ((n / 65536) % 256) as u8, ((n / 256) % 256) as u8, (n % 256) as u8]
}

/// Value of four big-endian bytes.
pub open spec fn be32_value(b: Seq<u8>) -> nat {
    (b[0] as nat) * 16777216 + (b[1] as nat) * 65536 + (b[2] as nat) * 256 + (b[3] as nat)
}

/// A frame: the body's length as four big-endian bytes, then the body.
pub open spec fn frame_bytes(body: Seq<u8>) -> Seq<u8> {
    be32(body.len()) + body
}

/// Frame a message body.
pub fn encode_frame(body: &[u8]) -> (res: Result<Vec<u8>, FrameError>)
    ensures
        body@.len() > MAX_MESSAGE_BYTES <==> res == Err::<Vec<u8>, FrameError>(FrameError::TooLarge),
        body@.len() <= MAX_MESSAGE_BYTES <==> res is Ok,
        res matches Ok(f) ==> f@ == frame_bytes(body@),
{
    let n = body.len();
    if n > MAX_MESSAGE_BYTES {
        return Err(FrameError::TooLarge);
    }
    let n32: u32 = n as u32;
    let mut f: Vec<u8> = Vec::new();
    f.push(((n32 / 16777216) % 256) as u8);
    f.push(((n32 / 65536) % 256) as u8);
    f.push(((n32 / 256) % 256) as u8);
    f.push((n32 % 256) as u8);
    put_bytes(&mut f, body);
    assert(f@ =~= frame_bytes(body@));
    Ok(f)
}

/// Body length announced by a frame header; a length above the cap is
/// refused.
pub fn frame_length(header: &[u8]) -> (res: Result<usize, FrameError>)
    requires
        header@.len() == 4,
    ensures
        be32_value(header@) > MAX_MESSAGE_BYTES <==> res == Err::<usize, FrameError>(FrameError::TooLarge),
        be32_value(header@) <= MAX_MESSAGE_BYTES <==> res is Ok,
        res matches Ok(n) ==> n == be32_value(header@),
{
    let v: u64 = (header[0] as u64) * 16777216 + (header[1] as u64) * 65536 + (header[2] as u64) * 256 + (header[3] as u64);
    if v > MAX_MESSAGE_BYTES as u64 {
        Err(FrameError::TooLarge)
    } else {
        Ok(v as usize)
    }
}

/// Read one frame from the start of `bytes`: its body and the number of
/// bytes it occupies.
pub fn decode_frame(bytes: &[u8]) -> (res: Result<(Vec<u8>, usize), FrameError>)
    ensures
        bytes@.len() < 4 ==> res == Err::<(Vec<u8>, usize), FrameError>(FrameError::Truncated),
        bytes@.len() >= 4 && be32_value(bytes@.take(4)) > MAX_MESSAGE_BYTES ==> res == Err::<(Vec<u8>, usize), FrameError>(FrameError::TooLarge),
        bytes@.len() >= 4 && be32_value(bytes@.take(4)) <= MAX_MESSAGE_BYTES && bytes@.len() < 4 + be32_value(bytes@.take(4))
            ==> res == Err::<(Vec<u8>, usize), FrameError>(FrameError::Truncated),
        bytes@.len() >= 4 && be32_value(bytes@.take(4)) <= MAX_MESSAGE_BYTES && bytes@.len() >= 4 + be32_value(bytes@.take(4))
            ==> res is Ok,
        res matches Ok((body, used)) ==> {
            &&& used == 4 + body@.len()
            &&& be32_value(bytes@.take(4)) == body@.len()
            &&& body@ == bytes@.subrange(4, used as int)
        },
{
    if bytes.len() < 4 {
        return Err(FrameError::Truncated);
    }
    let mut header: Vec<u8> = Vec::new();
    header.push(bytes[0]);
    header.push(bytes[1]);
    header.push(bytes[2]);
    header.push(bytes[3]);
    assert(header@ =~= bytes@.take(4));
    let n = frame_length(header.as_slice())?;
    if bytes.len() - 4 < n {
        return Err(FrameError::Truncated);
    }
    let mut body: Vec<u8> = Vec::new();
    let mut i: usize = 0;
    while i < n
        invariant
            i <= n,
            4 + n <= bytes@.len(),
            bytes@.len() == bytes.len(),
            body@ == bytes@.subrange(4, 4 + i),
        decreases n - i,
    {
        body.push(bytes[4 + i]);
        i = i + 1;
        assert(body@ =~= bytes@.subrange(4, 4 + i));
    }
    Ok((body, 4 + n))
}

/// Reading back a frame gives its body.
pub proof fn lemma_frame_round_trip(body: Seq<u8>, rest: Seq<u8>)
    requires
        body.len() <= MAX_MESSAGE_BYTES,
    ensures
        (frame_bytes(body) + rest).take(4) == be32(body.len()),
        be32_value(be32(body.len())) == body.len(),
        (frame_bytes(body) + rest).subrange(4, 4 + body.len() as int) == body,
{
    let n = body.len();
    assert((frame_bytes(body) + rest).take(4) =~= be32(n));
    assert((frame_bytes(body) + rest).subrange(4, 4 + n as int) =~= body);
    let b = be32(n);
    assert(n % 256 < 256);
    assert(be32_value(b) == n) by (nonlinear_arith)
        requires
            n <= 1048576,
            b[0] as nat == (n / 16777216) % 256,
            b[1] as nat == (n / 65536) % 256,
            b[2] as nat == (n / 256) % 256,
            b[3] as nat == n % 256,
            be32_value(b) == (b[0] as nat) * 16777216 + (b[1] as nat) * 65536 + (b[2] as nat) * 256 + (b[3] as nat),
    ;
}

/// Request to fetch a capability card by id.
#[derive(Debug, Clone)]
pub struct CardRequest {
    pub capability_id: String,
}

impl CardRequest {
    /// Wire encoding: the capability id as field 1.
    pub open spec fn encoding(&self) -> Seq<u8> {
        string_field(1, self.capability_id@)
    }

    pub fn encode(&self) -> (out: Vec<u8>)
        ensures
            out@ == self.encoding(),
    {
        let mut b: Vec<u8> = Vec::new();
        put_string_field(&mut b, 1, &self.capability_id);
        assert(b@ =~= self.encoding());
        b
    }
}

/// Reply to a card fetch.
#[derive(Debug, Clone)]
pub enum CardResponse {
    Found(CapabilityCard),
    NotFound,
}

impl CardResponse {
    /// Wire encoding: the card, if any, as field 1.
    pub open spec fn encoding(&self) -> Seq<u8> {
        match self {
            CardResponse::Found(c) => len_delimited(1, c.encoding()),
            CardResponse::NotFound => Seq::empty(),
        }
    }

    pub fn encode(&self) -> (out: Vec<u8>)
        ensures
            out@ == self.encoding(),
    {
        let mut b: Vec<u8> = Vec::new();
        match self {
            CardResponse::Found(c) => {
                let e = c.encode();
                put_len_delimited(&mut b, 1, e.as_slice());
            },
            CardResponse::NotFound => {},
        }
        assert(b@ =~= self.encoding());
        b
    }

    /// The response for an optional card.
    pub fn from_card(card: Option<CapabilityCard>) -> (r: CardResponse)
        ensures
            match card {
                Some(c) => r == CardResponse::Found(c),
                None => r == CardResponse::NotFound,
            },
    {
        match card {
            Some(c) => CardResponse::Found(c),
            None => CardResponse::NotFound,
        }
    }

    /// The card carried, if any.
    pub fn into_card(self) -> (c: Option<CapabilityCard>)
        ensures
            match self {
                CardResponse::Found(x) => c == Some(x),
                CardResponse::NotFound => c is None,
            },
    {
        match self {
            CardResponse::Found(x) => Some(x),
            CardResponse::NotFound => None,
        }
    }
}

/// Codec of the ACL protocol: framed envelopes both ways.
#[derive(Clone, Copy, Default)]
pub struct AclCodec;

impl AclCodec {
    /// Frame an envelope.
    pub fn frame_message(&self, msg: &AclMessage) -> (res: Result<Vec<u8>, FrameError>)
        ensures
            msg.encoding().len() > MAX_MESSAGE_BYTES <==> res == Err::<Vec<u8>, FrameError>(FrameError::TooLarge),
        msg.encoding().len() <= MAX_MESSAGE_BYTES <==> res is Ok,
            res matches Ok(f) ==> f@ == frame_bytes(msg.encoding()),
    {
        let body = msg.encode();
        encode_frame(body.as_slice())
    }
}

/// Codec of the card-fetch protocol.
#[derive(Clone, Copy, Default)]
pub struct CardCodec;

impl CardCodec {
    /// Frame a card request.
    pub fn frame_request(&self, req: &CardRequest) -> (res: Result<Vec<u8>, FrameError>)
        ensures
            req.encoding().len() > MAX_MESSAGE_BYTES <==> res == Err::<Vec<u8>, FrameError>(FrameError::TooLarge),
        req.encoding().len() <= MAX_MESSAGE_BYTES <==> res is Ok,
            res matches Ok(f) ==> f@ == frame_bytes(req.encoding()),
    {
        let body = req.encode();
        encode_frame(body.as_slice())
    }

    /// Frame a card response.
    pub fn frame_response(&self, res_: &CardResponse) -> (res: Result<Vec<u8>, FrameError>)
        ensures
            res_.encoding().len() > MAX_MESSAGE_BYTES <==> res == Err::<Vec<u8>, FrameError>(FrameError::TooLarge),
        res_.encoding().len() <= MAX_MESSAGE_BYTES <==> res is Ok,
            res matches Ok(f) ==> f@ == frame_bytes(res_.encoding()),
    {
        let body = res_.encode();
        encode_frame(body.as_slice())
    }
}

} // verus!

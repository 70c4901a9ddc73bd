use crate::common::error::CodecError;
use vstd::prelude::*;

verus! {

/// Largest payload, in bytes, that a cross-chain message may carry.
pub const MESSAGE_PAYLOAD_MAX_LENGTH: usize = 300;

/// Width of the length field that precedes the payload on the wire.
pub const LENGTH_PREFIX_BYTES: usize = 2;

/// The number that two bytes spell, most significant byte first.
pub open spec fn be16_value(hi: u8, lo: u8) -> int {
    hi as int * 256 + lo as int
}

/// The two bytes, most significant first, that spell `n`.
pub open spec fn be16_bytes(n: int) -> Seq<u8> {
    seq![(n / 256) as u8, (n % 256) as u8]
}

/// A payload as it travels: its length in two big-endian bytes, then the raw
/// payload.
pub open spec fn framed(payload: Seq<u8>) -> Seq<u8> {
    be16_bytes(payload.len() as int) + payload
}

/// What encoding a payload gives.
pub open spec fn encode_spec(payload: Seq<u8>) -> Result<Seq<u8>, CodecError> {
    if payload.len() > MESSAGE_PAYLOAD_MAX_LENGTH {
        Err(CodecError::PayloadTooLarge)
    } else {
        Ok(framed(payload))
    }
}

/// What decoding a buffer gives.
///
/// The length that the prefix declares and the length that the buffer carries
/// behind the prefix are both held to the bound first, and then to each other.
pub open spec fn decode_spec(buffer: Seq<u8>) -> Result<Seq<u8>, CodecError> {
    if buffer.len() < LENGTH_PREFIX_BYTES {
        Err(CodecError::LengthMismatch)
    } else {
        let declared = be16_value(buffer[0], buffer[1]);
        let carried = buffer.len() - LENGTH_PREFIX_BYTES;
        if declared > MESSAGE_PAYLOAD_MAX_LENGTH || carried > MESSAGE_PAYLOAD_MAX_LENGTH {
            Err(CodecError::PayloadTooLarge)
        } else if declared != carried {
            Err(CodecError::LengthMismatch)
        } else {
            Ok(buffer.subrange(LENGTH_PREFIX_BYTES as int, buffer.len() as int))
        }
    }
}

/// Frames a payload for the wire.
///
/// Fails with `PayloadTooLarge` exactly when the payload is longer than
/// [`MESSAGE_PAYLOAD_MAX_LENGTH`]. The payload's content is not looked at.
pub fn encode(payload: &[u8]) -> (result: Result<Vec<u8>, CodecError>)
    ensures
        match result {
            Ok(bytes) => encode_spec(payload@) == Ok::<Seq<u8>, CodecError>(bytes@),
            Err(e) => encode_spec(payload@) == Err::<Seq<u8>, CodecError>(e),
        },
{
    let len: usize = payload.len();
    if len > MESSAGE_PAYLOAD_MAX_LENGTH {
        return Err(CodecError::PayloadTooLarge);
    }
    let mut bytes: Vec<u8> = Vec::with_capacity(len + LENGTH_PREFIX_BYTES);
    bytes.push((len / 256) as u8);
    bytes.push((len % 256) as u8);
    let mut i: usize = 0;
    while i < len
        invariant
            i <= len,
            len == payload@.len(),
            bytes@ == be16_bytes(len as int) + payload@.subrange(0, i as int),
        decreases len - i,
    {
        bytes.push(payload[i]);
        i += 1;
    }
    assert(payload@.subrange(0, len as int) =~= payload@);
    Ok(bytes)
}

/// Takes a payload out of its wire frame.
///
/// Fails with `PayloadTooLarge` when the prefix declares, or the buffer
/// carries, more than [`MESSAGE_PAYLOAD_MAX_LENGTH`] bytes of payload, and with
/// `LengthMismatch` when the buffer is otherwise not a frame. The payload's
/// content is not looked at.
pub fn decode(buffer: &[u8]) -> (result: Result<Vec<u8>, CodecError>)
    ensures
        match result {
            Ok(payload) => decode_spec(buffer@) == Ok::<Seq<u8>, CodecError>(payload@),
            Err(e) => decode_spec(buffer@) == Err::<Seq<u8>, CodecError>(e),
        },
{
    let len: usize = buffer.len();
    if len < LENGTH_PREFIX_BYTES {
        return Err(CodecError::LengthMismatch);
    }
    let declared: usize = (buffer[0] as usize) * 256 + (buffer[1] as usize);
    let carried: usize = len - LENGTH_PREFIX_BYTES;
    if declared > MESSAGE_PAYLOAD_MAX_LENGTH || carried > MESSAGE_PAYLOAD_MAX_LENGTH {
        return Err(CodecError::PayloadTooLarge);
    }
    if declared != carried {
        return Err(CodecError::LengthMismatch);
    }
    let mut payload: Vec<u8> = Vec::with_capacity(carried);
    let mut i: usize = LENGTH_PREFIX_BYTES;
    while i < len
        invariant
            LENGTH_PREFIX_BYTES <= i <= len,
            len == buffer@.len(),
            payload@ == buffer@.subrange(LENGTH_PREFIX_BYTES as int, i as int),
        decreases len - i,
    {
        payload.push(buffer[i]);
        i += 1;
    }
    Ok(payload)
}

/// A message exchanged with a foreign chain.
#[derive(Debug)]
pub enum WormholeMessage {
    /// An opaque payload of at most [`MESSAGE_PAYLOAD_MAX_LENGTH`] bytes.
    Message { payload: Vec<u8> },
}

impl View for WormholeMessage {
    type V = Seq<u8>;

    /// A message is its payload.
    open spec fn view(&self) -> Seq<u8> {
        match *self {
            WormholeMessage::Message { payload } => payload@,
        }
    }
}

impl Clone for WormholeMessage {
    fn clone(&self) -> (copy: WormholeMessage)
        ensures
            copy@ == self@,
    {
        match self {
            WormholeMessage::Message { payload } => WormholeMessage::Message {
                payload: vstd::slice::slice_to_vec(payload.as_slice()),
            },
        }
    }
}

impl WormholeMessage {
    /// The message that carries `payload`.
    pub fn new(payload: Vec<u8>) -> (message: WormholeMessage)
        ensures
            message@ == payload@,
    {
        WormholeMessage::Message { payload }
    }

    /// The message's payload.
    pub fn payload(&self) -> (payload: &Vec<u8>)
        ensures
            payload@ == self@,
    {
        match self {
            WormholeMessage::Message { payload } => payload,
        }
    }

    /// The message in wire format; see [`encode`].
    pub fn serialize(&self) -> (result: Result<Vec<u8>, CodecError>)
        ensures
            match result {
                Ok(bytes) => encode_spec(self@) == Ok::<Seq<u8>, CodecError>(bytes@),
                Err(e) => encode_spec(self@) == Err::<Seq<u8>, CodecError>(e),
            },
    {
        match self {
            WormholeMessage::Message { payload } => encode(payload.as_slice()),
        }
    }

    /// The message that a wire buffer holds; see [`decode`].
    pub fn deserialize(buf: &[u8]) -> (result: Result<WormholeMessage, CodecError>)
        ensures
            match result {
                Ok(message) => decode_spec(buf@) == Ok::<Seq<u8>, CodecError>(message@),
                Err(e) => decode_spec(buf@) == Err::<Seq<u8>, CodecError>(e),
            },
    {
        match decode(buf) {
            Ok(payload) => Ok(WormholeMessage::Message { payload }),
            Err(e) => Err(e),
        }
    }
}

/// The codec is symmetric: a payload within the bound is encoded, and decoding
/// its encoding gives the payload back.
pub proof fn lemma_decode_encode(payload: Seq<u8>)
    requires
        payload.len() <= MESSAGE_PAYLOAD_MAX_LENGTH,
    ensures
        encode_spec(payload) == Ok::<Seq<u8>, CodecError>(framed(payload)),
        decode_spec(framed(payload)) == Ok::<Seq<u8>, CodecError>(payload),
{
    let buffer = framed(payload);
    let n = payload.len() as int;
    assert(buffer.len() == n + 2);
    assert(buffer[0] == (n / 256) as u8);
    assert(buffer[1] == (n % 256) as u8);
    assert(be16_value(buffer[0], buffer[1]) == n);
    assert(buffer.subrange(2, buffer.len() as int) =~= payload);
}

/// A payload beyond the bound passes in neither direction: it is not encoded,
/// and no buffer that carries it behind a length prefix is decoded, whatever
/// the prefix says.
pub proof fn lemma_oversize_rejected(payload: Seq<u8>, hi: u8, lo: u8)
    requires
        payload.len() > MESSAGE_PAYLOAD_MAX_LENGTH,
    ensures
        encode_spec(payload) == Err::<Seq<u8>, CodecError>(CodecError::PayloadTooLarge),
        decode_spec(seq![hi, lo] + payload) == Err::<Seq<u8>, CodecError>(
            CodecError::PayloadTooLarge,
        ),
{
    let buffer = seq![hi, lo] + payload;
    assert(buffer.len() == payload.len() + 2);
}

/// A buffer is decoded only if it is the frame of what comes out, so no two
/// buffers decode to the same payload.
pub proof fn lemma_encode_decode(buffer: Seq<u8>)
    requires
        decode_spec(buffer) is Ok,
    ensures
        decode_spec(buffer)->Ok_0.len() <= MESSAGE_PAYLOAD_MAX_LENGTH,
        framed(decode_spec(buffer)->Ok_0) == buffer,
{
    let payload = decode_spec(buffer)->Ok_0;
    assert(framed(payload) =~= buffer);
}

} // verus!

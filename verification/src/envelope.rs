//! The wire envelope: one magic byte, the schema identifier as a big-endian
//! 32-bit integer, then the payload.

use vstd::prelude::*;

verus! {

/// The first byte of every envelope.
pub const MAGIC: u8 = 0;

/// Number of bytes in front of the payload.
pub const HEADER_LEN: usize = 5;

/// Why a byte string is not an envelope.
#[derive(Clone, Copy, Debug, PartialEq, Eq, Structural)]
pub enum EnvelopeError {
    /// Fewer than five bytes.
    Truncated,
    /// The first byte is not the magic byte.
    BadMagic,
}

/// A decoded message: the schema identifier and the payload that follows it.
#[derive(Debug, PartialEq, Eq)]
pub struct Envelope {
    pub schema_id: u32,
    pub payload: Vec<u8>,
}

/// The mathematical content of an [`Envelope`].
pub struct EnvelopeView {
    pub schema_id: u32,
    pub payload: Seq<u8>,
}

impl View for Envelope {
    type V = EnvelopeView;

    open spec fn view(&self) -> EnvelopeView {
        EnvelopeView { schema_id: self.schema_id, payload: self.payload@ }
    }
}

/// The four bytes of `id`, most significant first.
pub open spec fn be32(id: u32) -> Seq<u8> {
    seq![
        (id / 0x100_0000) as u8,
        ((id / 0x1_0000) % 0x100) as u8,
        ((id / 0x100) % 0x100) as u8,
        (id % 0x100) as u8,
    ]
}

/// The number whose big-endian bytes are `b0 b1 b2 b3`.
pub open spec fn be32_value(b0: u8, b1: u8, b2: u8, b3: u8) -> int {
    b0 * 0x100_0000 + b1 * 0x1_0000 + b2 * 0x100 + b3
}

/// The bytes of the envelope that tags `payload` with `schema_id`.
pub open spec fn envelope_bytes(schema_id: u32, payload: Seq<u8>) -> Seq<u8> {
    seq![MAGIC] + be32(schema_id) + payload
}

/// What a byte string decodes to.
pub open spec fn parse_envelope(raw: Seq<u8>) -> Result<EnvelopeView, EnvelopeError> {
    if raw.len() < 5 {
        Err(EnvelopeError::Truncated)
    } else if raw[0] != MAGIC {
        Err(EnvelopeError::BadMagic)
    } else {
        Ok(
            EnvelopeView {
                schema_id: be32_value(raw[1], raw[2], raw[3], raw[4]) as u32,
                payload: raw.subrange(5, raw.len() as int),
            },
        )
    }
}

/// Builds the envelope for `payload` under `schema_id`.
pub fn encode(schema_id: u32, payload: &[u8]) -> (out: Vec<u8>)
    ensures
        out@ == envelope_bytes(schema_id, payload@),
        out@.len() == 5 + payload@.len(),
{
    let mut out: Vec<u8> = Vec::new();
    out.push(MAGIC);
    out.push((schema_id / 0x100_0000) as u8);
    out.push(((schema_id / 0x1_0000) % 0x100) as u8);
    out.push(((schema_id / 0x100) % 0x100) as u8);
    out.push((schema_id % 0x100) as u8);
    assert(out@ =~= seq![MAGIC] + be32(schema_id));
    out.extend_from_slice(payload);
    out
}

/// Splits an envelope into schema identifier and payload. The payload is
/// not inspected.
pub fn decode(raw: &[u8]) -> (out: Result<Envelope, EnvelopeError>)
    ensures
        match out {
            Ok(envelope) => parse_envelope(raw@) == Ok::<EnvelopeView, EnvelopeError>(envelope@),
            Err(e) => parse_envelope(raw@) == Err::<EnvelopeView, EnvelopeError>(e),
        },
{
    if raw.len() < HEADER_LEN {
        return Err(EnvelopeError::Truncated);
    }
    if raw[0] != MAGIC {
        return Err(EnvelopeError::BadMagic);
    }
    let schema_id: u32 = (raw[1] as u32) * 0x100_0000 + (raw[2] as u32) * 0x1_0000 + (raw[3] as u32)
        * 0x100 + (raw[4] as u32);
    let mut payload: Vec<u8> = Vec::new();
    let mut i: usize = HEADER_LEN;
    while i < raw.len()
        invariant
            5 <= i <= raw.len(),
            payload@ == raw@.subrange(5, i as int),
        decreases raw.len() - i,
    {
        payload.push(raw[i]);
        i = i + 1;
    }
    Ok(Envelope { schema_id, payload })
}

/// The four big-endian bytes of a schema identifier spell that identifier.
pub proof fn lemma_be32_inverse(id: u32)
    ensures
        be32(id).len() == 4,
        be32_value(be32(id)[0], be32(id)[1], be32(id)[2], be32(id)[3]) == id,
{
}

/// Decoding an encoded envelope gives back the schema identifier and the
/// payload, for every identifier and every payload.
pub proof fn lemma_decode_encode(schema_id: u32, payload: Seq<u8>)
    ensures
        parse_envelope(envelope_bytes(schema_id, payload)) == Ok::<EnvelopeView, EnvelopeError>(
            EnvelopeView { schema_id, payload },
        ),
{
    let raw = envelope_bytes(schema_id, payload);
    lemma_be32_inverse(schema_id);
    assert(raw.len() == 5 + payload.len());
    assert(raw[0] == MAGIC);
    assert(raw[1] == be32(schema_id)[0]);
    assert(raw[2] == be32(schema_id)[1]);
    assert(raw[3] == be32(schema_id)[2]);
    assert(raw[4] == be32(schema_id)[3]);
    assert(raw.subrange(5, raw.len() as int) =~= payload);
}

/// No byte string shorter than the header decodes.
pub proof fn lemma_short_input_rejected(raw: Seq<u8>)
    requires
        raw.len() < 5,
    ensures
        parse_envelope(raw) == Err::<EnvelopeView, EnvelopeError>(EnvelopeError::Truncated),
{
}

/// No byte string decodes unless it starts with the magic byte.
pub proof fn lemma_bad_magic_rejected(raw: Seq<u8>)
    requires
        raw.len() > 0,
        raw[0] != MAGIC,
    ensures
        parse_envelope(raw) is Err,
{
}

} // verus!

//! The wire envelope: the binary container pairing a pre-state snapshot with
//! an encoded operation for the single trip from host to guest.
//!
//! The layout is self-describing, since the guest has no side channel to
//! learn field lengths: an 8-byte little-endian length of the state field,
//! the state bytes, then the operation bytes to the end of the input.

use vstd::bytes::{spec_u64_from_le_bytes, spec_u64_to_le_bytes, u64_from_le_bytes, u64_to_le_bytes};
use vstd::prelude::*;
use vstd::slice::{slice_subrange, slice_to_vec};

verus! {

/// The envelope as built on the host and read back in the guest: a pre-state
/// snapshot in its serialized form, and a fully encoded operation.
#[derive(Debug)]
pub struct ZiskInput {
    pub pre_state_ssz_bytes: Vec<u8>,
    pub operation_input: Vec<u8>,
}

/// Malformed envelope bytes; fatal to the test case inside the guest.
#[derive(Clone, Copy, PartialEq, Eq, Structural, Debug)]
pub enum EnvelopeError {
    /// Fewer than the 8 bytes the length field needs.
    MissingLength,
    /// The length field claims more state bytes than the input holds.
    StateTruncated,
}

/// The encoded envelope: length of the state field, the state, the operation.
pub open spec fn spec_encode_envelope(state: Seq<u8>, op: Seq<u8>) -> Seq<u8>
    recommends
        state.len() <= u64::MAX,
{
    spec_u64_to_le_bytes(state.len() as u64) + state + op
}

/// What decoding yields: the two fields, or nothing when the bytes are not a
/// well-formed envelope.
pub open spec fn spec_decode_envelope(b: Seq<u8>) -> Option<(Seq<u8>, Seq<u8>)> {
    if b.len() < 8 {
        Option::None
    } else {
        let n = spec_u64_from_le_bytes(b.take(8)) as int;
        if n > b.len() - 8 {
            Option::None
        } else {
            Option::Some((b.subrange(8, 8 + n), b.subrange(8 + n, b.len() as int)))
        }
    }
}

impl ZiskInput {
    /// The state snapshot and the operation the envelope pairs, as the codec
    /// contracts speak of them.
    pub open spec fn fields(&self) -> (Seq<u8>, Seq<u8>) {
        (self.pre_state_ssz_bytes@, self.operation_input@)
    }

    /// Builds the envelope bytes for one guest invocation.
    pub fn encode(&self) -> (r: Vec<u8>)
        ensures
            r@ == spec_encode_envelope(self.pre_state_ssz_bytes@, self.operation_input@),
    {
        let n = self.pre_state_ssz_bytes.len();
        let mut r = u64_to_le_bytes(n as u64);
        r.extend_from_slice(self.pre_state_ssz_bytes.as_slice());
        r.extend_from_slice(self.operation_input.as_slice());
        proof {
            assert(r@ =~= spec_u64_to_le_bytes(n as u64) + self.pre_state_ssz_bytes@
                + self.operation_input@);
        }
        r
    }

    /// Reads an envelope back. Succeeds exactly on well-formed envelope
    /// bytes and then returns the two fields unchanged.
    pub fn decode(bytes: &[u8]) -> (r: Result<ZiskInput, EnvelopeError>)
        ensures
            match spec_decode_envelope(bytes@) {
                Option::Some(fields) => r is Ok && r->Ok_0.fields() == fields,
                Option::None => r is Err,
            },
            r is Err ==> (r->Err_0 is MissingLength <==> bytes@.len() < 8),
    {
        let total = bytes.len();
        if total < 8 {
            return Result::Err(EnvelopeError::MissingLength);
        }
        let len_field = slice_subrange(bytes, 0, 8);
        let n64 = u64_from_le_bytes(len_field);
        if n64 > (total - 8) as u64 {
            return Result::Err(EnvelopeError::StateTruncated);
        }
        let n = n64 as usize;
        let state = slice_subrange(bytes, 8, 8 + n);
        let op = slice_subrange(bytes, 8 + n, total);
        let r = ZiskInput {
            pre_state_ssz_bytes: slice_to_vec(state),
            operation_input: slice_to_vec(op),
        };
        proof {
            assert(bytes@.take(8) =~= len_field@);
        }
        Result::Ok(r)
    }
}

/// The envelope codec is lossless: decoding what was encoded gives back both
/// fields exactly, for every pair of byte sequences, the empty ones included.
pub proof fn lemma_envelope_round_trip(state: Seq<u8>, op: Seq<u8>)
    requires
        state.len() <= u64::MAX,
    ensures
        spec_decode_envelope(spec_encode_envelope(state, op)) == Option::Some((state, op)),
{
    vstd::bytes::lemma_auto_spec_u64_to_from_le_bytes();
    let enc = spec_encode_envelope(state, op);
    assert(spec_u64_to_le_bytes(state.len() as u64).len() == 8);
    assert(enc.take(8) =~= spec_u64_to_le_bytes(state.len() as u64));
    assert(spec_u64_from_le_bytes(enc.take(8)) == state.len() as u64);
    assert(enc.subrange(8, 8 + state.len() as int) =~= state);
    assert(enc.subrange(8 + state.len() as int, enc.len() as int) =~= op);
}

} // verus!

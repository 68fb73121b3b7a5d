//! The guest pipeline's decode stages: receive the envelope bytes, split the
//! envelope, read the operation. Pure functions of the input bytes, so every
//! re-execution of the guest on the same envelope reaches the apply stage
//! with identical values. The apply and commit stages are the external
//! state-transition and commitment capabilities; the pipeline hands them the
//! snapshot and the dispatch directive and carries their digest out through
//! [`crate::digest`].

use crate::envelope::{spec_decode_envelope, ZiskInput};
use crate::input::{spec_decode_operation, OperationInput};
use vstd::prelude::*;

verus! {

/// A full state object before or after the operation, carried in its
/// serialized form. The harness never looks inside: the external structural
/// codec decodes it for the apply stage, and the serialized form determines
/// that value exactly.
#[derive(Debug)]
pub struct StateSnapshot {
    ssz_bytes: Vec<u8>,
}

impl View for StateSnapshot {
    type V = Seq<u8>;

    closed spec fn view(&self) -> Seq<u8> {
        self.ssz_bytes@
    }
}

impl StateSnapshot {
    /// The serialized form, as handed to the external codec and apply steps.
    pub fn as_ssz_bytes(&self) -> (r: &Vec<u8>)
        ensures
            r@ == self@,
    {
        &self.ssz_bytes
    }
}

/// Takes serialized state bytes up as a snapshot. At the harness's level a
/// snapshot is exactly its serialized form; the structural decode into the
/// consensus state object is the external codec's work, done at the apply
/// stage.
pub fn from_ssz_bytes(ssz_bytes: &[u8]) -> (r: StateSnapshot)
    ensures
        r@ == ssz_bytes@,
{
    let mut held: Vec<u8> = Vec::new();
    held.extend_from_slice(ssz_bytes);
    proof {
        assert(held@ =~= ssz_bytes@);
    }
    StateSnapshot { ssz_bytes: held }
}

/// Why the guest stopped before its apply stage. Each is fatal to the test
/// case: the guest exits without an output line.
#[derive(Clone, Copy, PartialEq, Eq, Structural, Debug)]
pub enum GuestError {
    /// The input is not a well-formed envelope.
    MalformedEnvelope,
    /// The envelope's operation field is not a canonical operation encoding.
    MalformedOperation,
}

/// The decode stages of one guest run, in their fixed order: split the
/// envelope, take the state bytes up as a snapshot, read the operation.
/// Fails exactly on inputs whose envelope or operation bytes are malformed,
/// and then yields nothing an output line could be made from.
pub fn guest_decode(input_bytes: &[u8]) -> (r: Result<(StateSnapshot, OperationInput), GuestError>)
    ensures
        match spec_decode_envelope(input_bytes@) {
            Option::None => r is Err && r->Err_0 == GuestError::MalformedEnvelope,
            Option::Some(fields) => match spec_decode_operation(fields.1) {
                Option::None => r is Err && r->Err_0 == GuestError::MalformedOperation,
                Option::Some(v) => r is Ok && r->Ok_0.0@ == fields.0 && r->Ok_0.1@ == v,
            },
        },
{
    let envelope = match ZiskInput::decode(input_bytes) {
        Result::Ok(e) => e,
        Result::Err(_) => {
            return Result::Err(GuestError::MalformedEnvelope);
        },
    };
    let operation = match OperationInput::decode(envelope.operation_input.as_slice()) {
        Result::Ok(op) => op,
        Result::Err(_) => {
            return Result::Err(GuestError::MalformedOperation);
        },
    };
    let state = from_ssz_bytes(envelope.pre_state_ssz_bytes.as_slice());
    Result::Ok((state, operation))
}

/// Host and guest agree end to end: an envelope the host builds from any
/// state bytes and any operation reaches the guest's apply stage with that
/// very state and operation.
pub proof fn lemma_pipeline_round_trip(state: Seq<u8>, op: crate::input::OperationView)
    requires
        state.len() <= u64::MAX,
    ensures
        ({
            let enc = crate::envelope::spec_encode_envelope(
                state,
                crate::input::spec_encode_operation(op),
            );
            &&& spec_decode_envelope(enc) == Option::Some(
                (state, crate::input::spec_encode_operation(op)),
            )
            &&& spec_decode_operation(crate::input::spec_encode_operation(op)) == Option::Some(op)
        }),
{
    crate::envelope::lemma_envelope_round_trip(state, crate::input::spec_encode_operation(op));
    crate::input::lemma_operation_round_trip(op);
}

} // verus!

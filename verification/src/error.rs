//! The error taxonomy of the credential scheme.

use vstd::prelude::*;

use crate::credential::CredentialState;

verus! {

/// Every failure the library reports. Cryptographic verification routines
/// return booleans and never raise; these errors come from issuance, from
/// state checks, and from input validation.
#[derive(Debug)]
pub enum Error {
    /// A commitment is malformed (reserved for future widening of the API).
    InvalidCommitment,
    /// Commitment widths disagree (reserved for future widening of the API).
    MismatchedCommitmentLengths,
    /// An opening proof failed verification during issuance.
    InvalidProof,
    /// An opening proof failed verification at verification time.
    ProofVerificationFailed,
    /// A signature is malformed.
    InvalidSignature,
    /// A signature failed its pairing check.
    SignatureVerificationFailed,
    /// An operation needed a credential in another lifecycle state.
    InvalidCredentialState { expected: CredentialState, actual: CredentialState },
    /// A batch operation met a credential without a signature.
    MissingSignature,
    /// The protocol was aborted (reserved for future abort paths).
    ProtocolAborted,
    /// A lower-level serialization fault.
    SerializationError,
    /// An input-validation failure, described in words.
    Other(String),
}

} // verus!

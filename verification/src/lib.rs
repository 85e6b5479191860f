//! An anonymous credential scheme over a bilinear group.
//!
//! A user obtains from one or more issuers a signature over a dual-group
//! Pedersen-style commitment to an attribute vector whose first attribute
//! is a hidden user identifier. A credential is presented by re-randomizing
//! both the commitment and the signature, so successive presentations are
//! unlinkable; several credentials can be presented together with a
//! zero-knowledge proof that they all carry the same hidden identifier,
//! even across issuers with independent parameters.
//!
//! The group arithmetic is done by a pairing library behind the trusted
//! boundary in [`groups`]; every protocol step above it is verified against
//! contracts stated over the uninterpreted names of those operations.

pub mod commitment;
pub mod commitment_proof;
pub mod credential;
pub mod error;
pub mod groups;
pub mod identity_binding;
pub mod linked_credentials;
pub mod multi_credential;
pub mod multi_identity_credentials;
pub mod multi_issuer;
pub mod pairing;
pub mod protocol;
pub mod public_params;
pub mod schnorr;
pub mod signature;
pub mod util;
pub mod verkey;

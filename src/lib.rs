//! Policy-and-validation core for OpenPGP-style key management with
//! negotiated post-quantum algorithms.
//!
//! The cryptography itself is supplied by a [`Backend`]; this crate decides
//! which algorithm family each operation may use, validates untrusted
//! selectors before they reach the backend, and maps outcomes to exit status.

pub mod backend;
pub mod dispatch;
pub mod error;
pub mod model;
pub mod policy;
pub mod validate;

pub use backend::Backend;
pub use error::QpgpError;
pub use model::{
    DecryptRequest, EncryptRequest, KeyGenParams, KeyId, KeyMeta, PqcLevel, PqcPolicy,
    RevocationReason, RevokeRequest, RevokeResult, RotateRequest, RotateResult, SignRequest,
    UserId, VerifyRequest, VerifyResult, OPENPGP_PQC_DRAFT,
};

use vstd::prelude::*;
use crate::error::QpgpError;
use crate::model::{
    DecryptRequest, EncryptRequest, KeyGenParams, KeyId, KeyMeta, RevokeRequest, RevokeResult,
    RotateRequest, RotateResult, SignRequest, VerifyRequest, VerifyResult,
};

verus! {

/// A cryptography provider. The policy and validation logic of this crate
/// talks to the provider only through this interface.
pub trait Backend {
    /// The provider's fixed post-quantum capability, which `supports_pqc`
    /// reports. Outside verified code this is an ordinary method and must
    /// return the same value as `supports_pqc`.
    spec fn pqc_capable(&self) -> bool;

    /// A static descriptor of the provider.
    fn name(&self) -> &'static str;

    fn supports_pqc(&self) -> (r: bool)
        ensures
            r == self.pqc_capable(),
    ;

    /// The provider's keys, in the order `list_keys` reports them; the order
    /// is stable within one run. Outside verified code this is an ordinary
    /// method and must return what `list_keys` would.
    spec fn key_list(&self) -> Vec<KeyMeta>;

    fn list_keys(&self) -> (r: Result<Vec<KeyMeta>, QpgpError>)
        ensures
            r matches Ok(v) ==> v@ == self.key_list()@,
    ;

    fn generate_key(&self, params: KeyGenParams) -> Result<KeyMeta, QpgpError>;

    fn import_key(&self, bytes: &[u8]) -> Result<KeyMeta, QpgpError>;

    fn export_key(&self, id: &KeyId, secret: bool, armor: bool) -> Result<Vec<u8>, QpgpError>;

    fn encrypt(&self, req: EncryptRequest) -> Result<Vec<u8>, QpgpError>;

    fn decrypt(&self, req: DecryptRequest) -> Result<Vec<u8>, QpgpError>;

    fn sign(&self, req: SignRequest) -> Result<Vec<u8>, QpgpError>;

    fn verify(&self, req: VerifyRequest) -> Result<VerifyResult, QpgpError>;

    fn revoke_key(&self, req: RevokeRequest) -> Result<RevokeResult, QpgpError>;

    fn rotate_key(&self, req: RotateRequest) -> Result<RotateResult, QpgpError>;
}

} // verus!

//! License engine: authorization state and the keys it guards. The
//! machine identifier comes from the host; everything decided from it is
//! verified here.

use vstd::prelude::*;

verus! {

/// Authorization states a license can be in.
#[derive(Debug, Clone, Copy, PartialEq, Eq, Structural)]
pub enum LicenseState {
    Valid,
    Invalid,
    Expired,
    HwidMismatch,
    Tampered,
}

/// Why the engine could not be brought up.
#[derive(Debug, Clone, Copy, PartialEq, Eq, Structural)]
pub enum LicenseError {
    /// The host machine identifier could not be read.
    HwidUnavailable,
}

/// A license as loaded from storage. The expiration instant is held in
/// seconds since the Unix epoch.
#[derive(Debug, Clone)]
pub struct License {
    pub hwid: String,
    pub activation_key: String,
    pub ai_api_key: Option<String>,
    pub expiration_epoch: i64,
    pub license_type: String,
    pub state: LicenseState,
}

/// Relies on machine_uid::get for the host machine identifier. The
/// identifier depends on the machine, so nothing is stated of its value.
#[verifier::external_body]
fn machine_hwid() -> (hwid: Result<String, LicenseError>) {
    match machine_uid::get() {
        Ok(id) => Ok(id),
        Err(_) => Err(LicenseError::HwidUnavailable),
    }
}

/// The state a held license reports: `Invalid` while none is loaded.
pub open spec fn spec_license_state(license: Option<License>) -> LicenseState {
    match license {
        Some(l) => l.state,
        None => LicenseState::Invalid,
    }
}

/// Manages authorization and the sensitive keys behind it.
pub struct LicenseEngine {
    pub license: Option<License>,
    pub current_hwid: String,
}

impl LicenseEngine {
    /// Reads the host machine identifier; no license is loaded yet.
    pub fn new() -> (outcome: Result<Self, LicenseError>)
        ensures
            outcome matches Ok(engine) ==> engine.license is None,
    {
        match machine_hwid() {
            Ok(current_hwid) => Ok(Self { license: None, current_hwid }),
            Err(e) => Err(e),
        }
    }

    /// Accepts an encrypted license payload. Decrypting and checking it
    /// belongs to the storage layer; until then every payload reports
    /// `Invalid` and nothing is loaded.
    pub fn load_license(&mut self, _encrypted_data: &[u8]) -> (state: LicenseState)
        ensures
            state == LicenseState::Invalid,
            final(self).license == old(self).license,
            final(self).current_hwid == old(self).current_hwid,
    {
        LicenseState::Invalid
    }

    /// Execution is authorized exactly when a license is loaded and
    /// valid.
    pub fn is_authorized(&self) -> (authorized: bool)
        ensures
            authorized == (spec_license_state(self.license) == LicenseState::Valid),
    {
        match &self.license {
            Some(l) => l.state == LicenseState::Valid,
            None => false,
        }
    }

    /// The generation key, handed out only under a valid license.
    pub fn get_ai_api_key(&self) -> (key: Option<&str>)
        ensures
            key is Some <==> (self.license matches Some(l) && l.state == LicenseState::Valid
                && l.ai_api_key is Some),
            key matches Some(k) ==> k@ == self.license->0.ai_api_key->0@,
    {
        match &self.license {
            Some(l) => {
                if l.state == LicenseState::Valid {
                    match &l.ai_api_key {
                        Some(k) => Some(k.as_str()),
                        None => None,
                    }
                } else {
                    None
                }
            },
            None => None,
        }
    }

    /// The state the held license reports.
    pub fn get_state(&self) -> (state: LicenseState)
        ensures
            state == spec_license_state(self.license),
    {
        match &self.license {
            Some(l) => l.state,
            None => LicenseState::Invalid,
        }
    }

    /// The host machine identifier read at construction.
    pub fn get_hwid(&self) -> (hwid: &str)
        ensures
            hwid@ == self.current_hwid@,
    {
        self.current_hwid.as_str()
    }
}

} // verus!

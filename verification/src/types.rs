//! The values exchanged with the identity service.

use vstd::prelude::*;

verus! {

/// What a client is built from.
#[derive(Clone, Debug)]
pub struct IdentityClientConfig {
    pub base_url: String,
    pub client_id: String,
    /// A token obtained elsewhere, to start the session with.
    pub access_token: Option<String>,
}

/// The credentials of a login, with the one-time code where a second factor is
/// asked for.
#[derive(Clone, Debug)]
pub struct AuthInput {
    pub email: String,
    pub password: String,
    pub totp_code: Option<String>,
}

/// A request to strengthen the session by a further factor.
#[derive(Clone, Debug)]
pub struct StrengthenInput {
    pub kind: StrengthType,
    pub value: Option<String>,
}

/// The factors a session can be strengthened by.
#[derive(Clone, Debug)]
pub enum StrengthType {
    Totp,
    Email,
    Sms,
}

/// The profile of a user. The two times count seconds.
#[derive(Clone, Debug)]
pub struct UserProfile {
    pub id: String,
    pub name: String,
    pub email: String,
    pub role: String,
    pub is_active: bool,
    pub account_type: String,
    pub created_at: i64,
    pub updated_at: i64,
}

/// A role and the permissions it grants.
#[derive(Clone, Debug)]
pub struct UserRoles {
    pub id: String,
    pub name: String,
    pub permissions: Vec<String>,
}

/// The tokens a login or a refresh returns. `expires_in` counts seconds from the
/// moment the tokens are taken into the session.
#[derive(Clone, Debug)]
pub struct TokenResponse {
    pub access_token: String,
    pub refresh_token: String,
    pub expires_in: i64,
}

/// The session as the service sees it.
#[derive(Clone, Debug)]
pub struct SessionResponse {
    pub is_authenticated: bool,
    pub user: Option<UserProfile>,
    pub expires_at: Option<i64>,
}

/// The identity document to verify.
#[derive(Clone, Debug)]
pub struct EIDVerifyInput {
    pub document_type: String,
    pub document_number: String,
    pub issuance_date: String,
    pub expiration_date: String,
}

/// Where the verification of an identity document stands.
#[derive(Clone, Debug)]
pub struct EIDStatusResponse {
    pub verified: bool,
    pub document_type: Option<String>,
    pub verified_at: Option<i64>,
    pub expires_at: Option<i64>,
}

/// A device known to the service.
#[derive(Clone, Debug)]
pub struct DeviceInfo {
    pub id: String,
    pub name: String,
    pub kind: String,
    pub last_seen: Option<i64>,
    pub trusted: bool,
}

/// Whether a device is available, and which.
#[derive(Clone, Debug)]
pub struct DeviceStatusResponse {
    pub available: bool,
    pub device: Option<DeviceInfo>,
    pub last_sync: Option<i64>,
}

/// The credentials issued to a machine on enrollment.
#[derive(Clone, Debug)]
pub struct MachineEnrollmentResponse {
    pub machine_id: String,
    pub client_id: String,
    pub secret: String,
    pub access_token: Option<String>,
}

/// An access token issued to a machine.
#[derive(Clone, Debug)]
pub struct MachineTokenResponse {
    pub access_token: String,
    pub expires_in: i64,
    pub token_type: String,
}

} // verus!

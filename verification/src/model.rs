//! The plain domain and API model types the services share.
//!
//! Database documents, HTTP bodies and cache entries are handled by the
//! unverified edges; these are the settled values they exchange, with the
//! pure mappings the services apply to them (status codes, canonical
//! names, required-field checks).
use vstd::prelude::*;

verus! {

/// A user account's lifecycle state.
#[derive(Clone, Copy, Debug, PartialEq, Eq, Structural)]
pub enum UserStatus {
    Invited,
    Active,
    Inactive,
}

impl UserStatus {
    /// The canonical name stored for this status.
    pub fn name(&self) -> (r: &'static str)
        ensures
            r@ == match *self {
                UserStatus::Invited => "Invited"@,
                UserStatus::Active => "Active"@,
                UserStatus::Inactive => "Inactive"@,
            },
    {
        match self {
            UserStatus::Invited => "Invited",
            UserStatus::Active => "Active",
            UserStatus::Inactive => "Inactive",
        }
    }
}

/// A user account's role.
#[derive(Clone, Copy, Debug, PartialEq, Eq, Structural)]
pub enum UserRole {
    Admin,
    User,
}

impl UserRole {
    /// The canonical name stored for this role.
    pub fn name(&self) -> (r: &'static str)
        ensures
            r@ == match *self {
                UserRole::Admin => "Admin"@,
                UserRole::User => "User"@,
            },
    {
        match self {
            UserRole::Admin => "Admin",
            UserRole::User => "User",
        }
    }
}

/// A tenant's lifecycle state.
#[derive(Clone, Copy, Debug, PartialEq, Eq, Structural)]
pub enum TenantStatus {
    Active,
    Inactive,
}

impl TenantStatus {
    /// The canonical name stored for this status.
    pub fn name(&self) -> (r: &'static str)
        ensures
            r@ == match *self {
                TenantStatus::Active => "ACTIVE"@,
                TenantStatus::Inactive => "INACTIVE"@,
            },
    {
        match self {
            TenantStatus::Active => "ACTIVE",
            TenantStatus::Inactive => "INACTIVE",
        }
    }
}

/// A tenant's service tier.
#[derive(Clone, Copy, Debug, PartialEq, Eq, Structural)]
pub enum TenantTier {
    Free,
    Standard,
    Premium,
}

impl TenantTier {
    /// The canonical name stored for this tier.
    pub fn name(&self) -> (r: &'static str)
        ensures
            r@ == match *self {
                TenantTier::Free => "FREE"@,
                TenantTier::Standard => "STANDARD"@,
                TenantTier::Premium => "PREMIUM"@,
            },
    {
        match self {
            TenantTier::Free => "FREE",
            TenantTier::Standard => "STANDARD",
            TenantTier::Premium => "PREMIUM",
        }
    }
}

/// A request to invite a user: both fields are required.
#[derive(Clone, Debug)]
pub struct Invite {
    pub email: Option<String>,
    pub role: Option<UserRole>,
}

impl Invite {
    /// Whether every required field is present.
    pub fn is_complete(&self) -> (r: bool)
        ensures
            r == (self.email is Some && self.role is Some),
    {
        self.email.is_some() && self.role.is_some()
    }
}

/// A request to identify a user by mail address: the field is required.
#[derive(Clone, Debug)]
pub struct Identify {
    pub email: Option<String>,
}

impl Identify {
    /// Whether every required field is present.
    pub fn is_complete(&self) -> (r: bool)
        ensures
            r == (self.email is Some),
    {
        self.email.is_some()
    }
}

/// A request to register a user: the field is required.
#[derive(Clone, Debug)]
pub struct RegisterUser {
    pub email: Option<String>,
}

impl RegisterUser {
    /// Whether every required field is present.
    pub fn is_complete(&self) -> (r: bool)
        ensures
            r == (self.email is Some),
    {
        self.email.is_some()
    }
}

/// What the health endpoint reports.
#[derive(Clone, Debug)]
pub struct HealthResponse {
    pub status: String,
    pub version: String,
}

/// The errors an API handler surfaces to a caller.
#[derive(Clone, Debug, PartialEq, Eq)]
pub enum ApiError {
    ValidationError(String),
    NotFound(String),
    UnexpectedError(String),
}

impl ApiError {
    /// The HTTP status code each error kind answers with.
    pub open spec fn spec_status_code(&self) -> u16 {
        match *self {
            ApiError::ValidationError(_) => 400u16,
            ApiError::NotFound(_) => 404u16,
            ApiError::UnexpectedError(_) => 500u16,
        }
    }

    /// The HTTP status code each error kind answers with.
    pub fn status_code(&self) -> (r: u16)
        ensures
            r == self.spec_status_code(),
    {
        match self {
            ApiError::ValidationError(_) => 400,
            ApiError::NotFound(_) => 404,
            ApiError::UnexpectedError(_) => 500,
        }
    }
}

/// The body an API error answers with.
#[derive(Clone, Debug, PartialEq, Eq)]
pub struct ApiStatusResponse {
    pub code: u16,
    pub message: String,
}

impl ApiStatusResponse {
    /// A response carrying this status code and message.
    pub fn new(status_code: u16, message: &str) -> (r: ApiStatusResponse)
        ensures
            r.code == status_code,
            r.message@ == message@,
    {
        ApiStatusResponse { code: status_code, message: message.to_owned() }
    }
}

impl ApiError {
    /// The response body for this error: client errors carry their own
    /// message, unexpected errors only the canonical server-error reason.
    pub fn error_response(&self) -> (r: ApiStatusResponse)
        ensures
            r.code == self.spec_status_code(),
            match *self {
                ApiError::ValidationError(m) => r.message@ == m@,
                ApiError::NotFound(m) => r.message@ == m@,
                ApiError::UnexpectedError(_) => r.message@ == "Internal Server Error"@,
            },
    {
        match self {
            ApiError::ValidationError(m) => ApiStatusResponse::new(400, m.as_str()),
            ApiError::NotFound(m) => ApiStatusResponse::new(404, m.as_str()),
            ApiError::UnexpectedError(_) => ApiStatusResponse::new(500, "Internal Server Error"),
        }
    }
}

} // verus!

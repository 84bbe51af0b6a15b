//! The types that the application services exchange: service errors, networks, users,
//! notification channels and types.
use vstd::prelude::*;

verus! {

/// The length of a user's public key in hex.
pub const PUBLIC_KEY_HEX_LENGTH: usize = 64;

/// An error that an application service reports.
#[derive(Clone, Debug, Default)]
pub struct AppServiceError {
    pub description: String,
}

impl AppServiceError {
    /// The error with the given description.
    pub fn from(description: String) -> (e: AppServiceError)
        ensures
            e.description == description,
    {
        AppServiceError { description }
    }
}

/// An error that a service reports.
#[derive(Clone, Debug, Default)]
pub struct ServiceError {
    pub description: String,
}

impl ServiceError {
    /// The error with the given description.
    pub fn from(description: String) -> (e: ServiceError)
        ensures
            e.description == description,
    {
        ServiceError { description }
    }
}

/// A network and the addresses of its services.
#[derive(Clone, Debug, Default)]
pub struct Network {
    pub id: u32,
    pub hash: String,
    pub name: String,
    pub live_network_status_service_url: Option<String>,
    pub report_service_url: Option<String>,
    pub validator_details_service_url: Option<String>,
    pub validator_list_service_url: Option<String>,
}

/// A user, known by a public key.
#[derive(Clone, Debug, Default)]
pub struct User {
    pub id: u32,
    pub public_key_hex: String,
}

/// A channel that notifications can be sent through.
#[derive(Clone, Debug, Default)]
pub struct NotificationChannel {
    pub name: String,
}

/// A type of notification.
#[derive(Clone, Debug, Default)]
pub struct NotificationType {
    pub id: u32,
    pub code: String,
}

} // verus!

//! Typed client logic for the ip-api.com geolocation service.
//!
//! The crate models the service's field-selection protocol: a selector keeps a
//! numeric mask of requested response attributes plus a response language, and
//! renders both into the query string of a lookup request. Response handling
//! turns an HTTP status, the rate-limit header and the body text into either a
//! typed record or a typed error. The network transport itself is left to the
//! caller; every decision this crate makes is stated in contracts and verified.

pub mod config;
pub mod error;
pub mod fields;
pub mod json;
pub mod record;
pub mod response;
pub mod text;

pub use config::generate_empty_config;
pub use config::generate_maximum_config;
pub use config::generate_minimum_config;
pub use config::IpApiConfig;
pub use config::IpApiLanguage;
pub use error::IpApiError;
pub use fields::FieldTag;
pub use record::IpData;
pub use response::batch_request_body;
pub use response::check_error_message;
pub use response::check_response;
pub use response::evaluate_batch_response;
pub use response::evaluate_single_response;
pub use response::BodyOutcome;
pub use response::TtlHeader;

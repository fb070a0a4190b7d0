pub mod api_types;
pub mod auth;
pub mod client;
pub mod error;
pub mod request;

pub use client::{MUST_AUTHENTICATE, PAGE_LOCATIONS, PAGE_LOGIN, PAGE_RENEW, RenewStep, TotalComfort, lemma_login_enables_fetch, lemma_fallback_login_holds_environment_credentials, fallback_login};
pub use auth::{Authentication, ENV_APPLICATION_ID, ENV_PASSWORD, ENV_USERNAME, missing_message};
pub use api_types::{SessionData, TimeZone, UserInfo};
pub use error::{ErrorKind, TotalComfortError, fails_with};
pub use request::{Answer, Method, Request, Status, is_success, to_decimal};

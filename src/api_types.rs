use vstd::prelude::*;

verus! {

/// Account metadata embedded in a session.
#[derive(Debug)]
pub struct UserInfo {
    pub user_id: u64,
    pub username: String,
    pub firstname: String,
    pub lastname: String,
    pub street_address: String,
    pub city: String,
    pub zipcode: String,
    pub country: String,
    pub telephone: String,
    pub user_language: String,
    pub is_activated: bool,
    pub device_count: u32,
    pub tenant_id: u32,
    pub security_question1: String,
    pub security_question2: String,
    pub security_question3: String,
    pub latest_eula_accepted: bool,
}

/// An active session: the token the server issued and the profile of its user.
#[derive(Debug)]
pub struct SessionData {
    pub session_id: String,
    pub user_info: UserInfo,
}

/// The time zone of a location.
#[derive(Debug)]
pub struct TimeZone {
    pub id: String,
    pub display_name: String,
    pub offset_minutes: u64,
    pub current_offset_minutes: u64,
    pub using_daylight_saving_time: bool,
}

} // verus!

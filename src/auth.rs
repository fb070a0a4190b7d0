use vstd::prelude::*;
use crate::error::{ErrorKind, TotalComfortError, fails_with};

verus! {

/// The environment variable that holds the application identifier.
pub const ENV_APPLICATION_ID: &'static str = "HONEYWELL_APPLICATION_ID";

/// The environment variable that holds the user name.
pub const ENV_USERNAME: &'static str = "HONEYWELL_USERNAME";

/// The environment variable that holds the password.
pub const ENV_PASSWORD: &'static str = "HONEYWELL_PASSWORD";

pub const MISSING_VARIABLE: &'static str = "environment variable not found: ";

/// The description of the error raised when an environment variable is absent.
pub open spec fn missing_message(name: Seq<char>) -> Seq<char> {
    MISSING_VARIABLE@ + name
}

/// The description of credentials with this user name and application
/// identifier; it holds no password.
pub open spec fn summary_of(username: Seq<char>, application_id: Seq<char>) -> Seq<char> {
    "User { username: \""@ + username + "\", application_id: \""@ + application_id + "\" }"@
}

/// The login payload: user name, password and application identifier.
pub struct Authentication {
    username: String,
    password: String,
    application_id: String,
}

fn missing(name: &str) -> (e: TotalComfortError)
    ensures
        e.spec_kind() == ErrorKind::Authentication,
        e.detail() == missing_message(name@),
{
    TotalComfortError::AuthenticationFailed(String::from_str(MISSING_VARIABLE).concat(name))
}

impl Authentication {
    pub closed spec fn spec_username(&self) -> Seq<char> {
        self.username@
    }

    pub closed spec fn spec_password(&self) -> Seq<char> {
        self.password@
    }

    pub closed spec fn spec_application_id(&self) -> Seq<char> {
        self.application_id@
    }

    /// Credentials from a user name and password given by the caller and the
    /// application identifier read from the environment (`None` when the
    /// variable is absent).
    pub fn new(username: &str, password: &str, application_id: Option<String>) -> (r: Result<
        Self,
        TotalComfortError,
    >)
        ensures
            application_id is None <==> r is Err,
            application_id is None ==> fails_with(
                r,
                ErrorKind::Authentication,
                missing_message(ENV_APPLICATION_ID@),
            ),
            r matches Ok(a) ==> a.spec_username() == username@ && a.spec_password() == password@
                && a.spec_application_id() == application_id->Some_0@,
    {
        match application_id {
            None => Err(missing(ENV_APPLICATION_ID)),
            Some(application_id) => Ok(
                Authentication {
                    username: String::from_str(username),
                    password: String::from_str(password),
                    application_id,
                },
            ),
        }
    }

    /// Credentials read wholly from the environment: the values of the
    /// application identifier, user name and password variables, each `None`
    /// when absent. Fails on the first absent one, in that order.
    pub fn from_env(
        application_id: Option<String>,
        username: Option<String>,
        password: Option<String>,
    ) -> (r: Result<Self, TotalComfortError>)
        ensures
            r is Ok <==> (application_id is Some && username is Some && password is Some),
            application_id is None ==> fails_with(
                r,
                ErrorKind::Authentication,
                missing_message(ENV_APPLICATION_ID@),
            ),
            application_id is Some && username is None ==> fails_with(
                r,
                ErrorKind::Authentication,
                missing_message(ENV_USERNAME@),
            ),
            application_id is Some && username is Some && password is None ==> fails_with(
                r,
                ErrorKind::Authentication,
                missing_message(ENV_PASSWORD@),
            ),
            r matches Ok(a) ==> a.spec_application_id() == application_id->Some_0@
                && a.spec_username() == username->Some_0@ && a.spec_password()
                == password->Some_0@,
    {
        let application_id = match application_id {
            None => { return Err(missing(ENV_APPLICATION_ID)); },
            Some(v) => v,
        };
        let username = match username {
            None => { return Err(missing(ENV_USERNAME)); },
            Some(v) => v,
        };
        let password = match password {
            None => { return Err(missing(ENV_PASSWORD)); },
            Some(v) => v,
        };
        Ok(Authentication { username, password, application_id })
    }

    /// A description of the credentials for logs, which leaves the password
    /// out: `User { username: "..", application_id: ".." }`, values as they are.
    pub fn summary(&self) -> (r: String)
        ensures
            r@ == summary_of(self.spec_username(), self.spec_application_id()),
    {
        let mut r = String::from_str("User { username: \"");
        r.append(self.username.as_str());
        r.append("\", application_id: \"");
        r.append(self.application_id.as_str());
        r.append("\" }");
        r
    }

    pub fn username(&self) -> (r: &String)
        ensures
            r@ == self.spec_username(),
    {
        &self.username
    }

    pub fn password(&self) -> (r: &String)
        ensures
            r@ == self.spec_password(),
    {
        &self.password
    }

    pub fn application_id(&self) -> (r: &String)
        ensures
            r@ == self.spec_application_id(),
    {
        &self.application_id
    }
}

} // verus!

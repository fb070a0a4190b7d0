use vstd::prelude::*;

verus! {

/// The three ways an operation of the client can fail.
#[derive(PartialEq, Eq, Structural, Clone, Copy, Debug)]
pub enum ErrorKind {
    Authentication,
    Renew,
    Retrieve,
}

/// A failure of the client, with a human-readable description.
#[derive(Debug)]
pub enum TotalComfortError {
    /// Credentials could not be built, the login was rejected or did not
    /// complete, or a data request was refused as unauthorized.
    AuthenticationFailed(String),
    /// No session to renew, or the renewal was rejected or did not complete.
    RenewFailed(String),
    /// No session to fetch with, or the fetch was rejected or did not complete.
    DataRetrive(String),
}

impl TotalComfortError {
    pub open spec fn spec_kind(&self) -> ErrorKind {
        match self {
            TotalComfortError::AuthenticationFailed(_) => ErrorKind::Authentication,
            TotalComfortError::RenewFailed(_) => ErrorKind::Renew,
            TotalComfortError::DataRetrive(_) => ErrorKind::Retrieve,
        }
    }

    /// The description carried by the error.
    pub open spec fn detail(&self) -> Seq<char> {
        match self {
            TotalComfortError::AuthenticationFailed(m) => m@,
            TotalComfortError::RenewFailed(m) => m@,
            TotalComfortError::DataRetrive(m) => m@,
        }
    }

    /// The prefix that the text of an error of kind `k` starts with.
    pub open spec fn prefix_of(k: ErrorKind) -> Seq<char> {
        match k {
            ErrorKind::Authentication => AUTHENTICATION_PREFIX@,
            ErrorKind::Renew => RENEW_PREFIX@,
            ErrorKind::Retrieve => RETRIEVE_PREFIX@,
        }
    }

    pub fn kind(&self) -> (k: ErrorKind)
        ensures
            k == self.spec_kind(),
    {
        match self {
            TotalComfortError::AuthenticationFailed(_) => ErrorKind::Authentication,
            TotalComfortError::RenewFailed(_) => ErrorKind::Renew,
            TotalComfortError::DataRetrive(_) => ErrorKind::Retrieve,
        }
    }

    pub fn description(&self) -> (r: &String)
        ensures
            r@ == self.detail(),
    {
        match self {
            TotalComfortError::AuthenticationFailed(m) => m,
            TotalComfortError::RenewFailed(m) => m,
            TotalComfortError::DataRetrive(m) => m,
        }
    }

    /// The error as a line of text: its kind's prefix, then its description.
    pub fn to_string(&self) -> (r: String)
        ensures
            r@ == Self::prefix_of(self.spec_kind()) + self.detail(),
    {
        let mut r = match self {
            TotalComfortError::AuthenticationFailed(_) => String::from_str(AUTHENTICATION_PREFIX),
            TotalComfortError::RenewFailed(_) => String::from_str(RENEW_PREFIX),
            TotalComfortError::DataRetrive(_) => String::from_str(RETRIEVE_PREFIX),
        };
        r.append(self.description().as_str());
        r
    }
}

pub const AUTHENTICATION_PREFIX: &'static str = "Authentication failed: ";

pub const RENEW_PREFIX: &'static str = "Renew failed: ";

pub const RETRIEVE_PREFIX: &'static str = "Data retrieve failed: ";

/// Whether `r` is an error of kind `k` that carries the description `d`.
pub open spec fn fails_with<T>(r: Result<T, TotalComfortError>, k: ErrorKind, d: Seq<char>) -> bool {
    match r {
        Ok(_) => false,
        Err(e) => e.spec_kind() == k && e.detail() == d,
    }
}

} // verus!

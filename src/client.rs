use vstd::prelude::*;
use crate::api_types::SessionData;
use crate::auth::{Authentication, ENV_APPLICATION_ID, ENV_PASSWORD, ENV_USERNAME, missing_message};
use crate::error::{ErrorKind, TotalComfortError, fails_with};
use crate::request::{
    HEADER_ACCEPT, HEADER_CONTENT_LENGTH, HEADER_CONTENT_TYPE, HEADER_SESSION_ID, MEDIA_JSON,
    Answer, Method, Request, STATUS_UNAUTHORIZED, Status, decimal, is_success, page_url, pair, pairs_view,
    spec_is_success, to_decimal, url_of,
};

verus! {

/// The page that a login is posted to.
pub const PAGE_LOGIN: &'static str = "api/Session";

/// The page that a renewal is put to.
pub const PAGE_RENEW: &'static str = "api/session";

/// The page that locations are read from.
pub const PAGE_LOCATIONS: &'static str = "api/locations";

/// The description of the error raised by an operation that needs a session
/// when the client holds none.
pub const MUST_AUTHENTICATE: &'static str = "must authenticate first";

/// What a completed renewal asks of its caller.
pub enum RenewStep {
    /// The session was renewed; nothing changes.
    Renewed,
    /// The server no longer knows the session: send this login request for
    /// these credentials, read afresh from the environment, and complete it
    /// with `authenticate_reply`, whose outcome is the renewal's.
    Reauthenticate(Authentication, Request),
}

/// Whether `r` is a request with the given method, page, headers, query and body.
pub open spec fn request_is(
    r: Request,
    method: Method,
    page: Seq<char>,
    headers: Seq<(Seq<char>, Seq<char>)>,
    query: Seq<(Seq<char>, Seq<char>)>,
    body: Seq<(Seq<char>, Seq<char>)>,
) -> bool {
    &&& r.method == method
    &&& r.url@ == url_of(page)
    &&& pairs_view(r.headers@) == headers
    &&& pairs_view(r.query@) == query
    &&& pairs_view(r.body@) == body
}

/// What a renewal yields when the server no longer knows the session, given
/// the environment's values: the error for the first absent variable, else
/// the login request for the credentials those values make.
pub open spec fn fallback_login(
    r: Result<RenewStep, TotalComfortError>,
    application_id: Option<String>,
    username: Option<String>,
    password: Option<String>,
) -> bool {
    if application_id is None {
        fails_with(r, ErrorKind::Authentication, missing_message(ENV_APPLICATION_ID@))
    } else if username is None {
        fails_with(r, ErrorKind::Authentication, missing_message(ENV_USERNAME@))
    } else if password is None {
        fails_with(r, ErrorKind::Authentication, missing_message(ENV_PASSWORD@))
    } else {
        match r {
            Ok(RenewStep::Reauthenticate(a, q)) => {
                &&& a.spec_application_id() == application_id->Some_0@
                &&& a.spec_username() == username->Some_0@
                &&& a.spec_password() == password->Some_0@
                &&& request_is(q, Method::Post, PAGE_LOGIN@, login_headers(), seq![], login_body(a))
            },
            _ => false,
        }
    }
}

pub open spec fn login_headers() -> Seq<(Seq<char>, Seq<char>)> {
    seq![(HEADER_ACCEPT@, MEDIA_JSON@), (HEADER_CONTENT_TYPE@, MEDIA_JSON@)]
}

/// The members of the login body, under the names the server expects.
pub open spec fn login_body(a: Authentication) -> Seq<(Seq<char>, Seq<char>)> {
    seq![
        ("username"@, a.spec_username()),
        ("password"@, a.spec_password()),
        ("applicationId"@, a.spec_application_id()),
    ]
}

pub open spec fn renew_headers(token: Seq<char>) -> Seq<(Seq<char>, Seq<char>)> {
    seq![(HEADER_SESSION_ID@, token), (HEADER_ACCEPT@, MEDIA_JSON@), (HEADER_CONTENT_LENGTH@, "0"@)]
}

pub open spec fn locations_headers(token: Seq<char>) -> Seq<(Seq<char>, Seq<char>)> {
    seq![(HEADER_ACCEPT@, MEDIA_JSON@), (HEADER_SESSION_ID@, token)]
}

/// The query of a location request: the user's id and the flag for full data.
pub open spec fn locations_query(user_id: u64) -> Seq<(Seq<char>, Seq<char>)> {
    seq![("userId"@, decimal(user_id as nat)), ("allData"@, "true"@)]
}

/// A client of the vendor's API that holds at most one session, and the
/// credentials of the login that opened it.
pub struct TotalComfort {
    session: Option<SessionData>,
    credentials: Option<Authentication>,
}

impl Default for TotalComfort {
    fn default() -> (r: Self)
        ensures
            r.spec_session() is None,
            r.spec_credentials() is None,
    {
        TotalComfort::new()
    }
}

impl TotalComfort {
    pub closed spec fn spec_session(&self) -> Option<SessionData> {
        self.session
    }

    pub closed spec fn spec_credentials(&self) -> Option<Authentication> {
        self.credentials
    }

    /// The client after a login with `auth` that opened session `s`.
    pub closed spec fn logged_in(self, auth: Authentication, s: SessionData) -> TotalComfort {
        TotalComfort { session: Some(s), credentials: Some(auth) }
    }

    /// A client without a session.
    pub fn new() -> (r: Self)
        ensures
            r.spec_session() is None,
            r.spec_credentials() is None,
    {
        TotalComfort { session: None, credentials: None }
    }

    /// Whether the client holds a session.
    pub fn is_authenticated(&self) -> (r: bool)
        ensures
            r == self.spec_session() is Some,
    {
        self.session.is_some()
    }

    /// The session the client holds, if any.
    pub fn session(&self) -> (r: Option<&SessionData>)
        ensures
            r matches Some(s) ==> self.spec_session() == Some(*s),
            r is None <==> self.spec_session() is None,
    {
        match &self.session {
            Some(s) => Some(s),
            None => None,
        }
    }

    /// Installs a session obtained elsewhere; the stored credentials stay.
    pub fn authenticate_with_session(&mut self, sesssion: SessionData)
        ensures
            final(self).spec_session() == Some(sesssion),
            final(self).spec_credentials() == old(self).spec_credentials(),
    {
        self.session = Some(sesssion);
    }

    /// The login request for `auth`: a POST of the credentials as a JSON object.
    pub fn authenticate_request(auth: &Authentication) -> (r: Request)
        ensures
            request_is(r, Method::Post, PAGE_LOGIN@, login_headers(), seq![], login_body(*auth)),
    {
        let mut headers: Vec<(String, String)> = Vec::new();
        headers.push(pair(HEADER_ACCEPT, MEDIA_JSON));
        headers.push(pair(HEADER_CONTENT_TYPE, MEDIA_JSON));
        let mut body: Vec<(String, String)> = Vec::new();
        body.push(pair("username", auth.username().as_str()));
        body.push(pair("password", auth.password().as_str()));
        body.push(pair("applicationId", auth.application_id().as_str()));
        let r = Request { method: Method::Post, url: page_url(PAGE_LOGIN), headers, query: Vec::new(), body };
        assert(pairs_view(r.headers@) =~= login_headers());
        assert(pairs_view(r.query@) =~= seq![]);
        assert(pairs_view(r.body@) =~= login_body(*auth));
        r
    }

    /// Completes a login with `auth` from the server's reply to the request
    /// built by `authenticate_request(&auth)`: `Err` with the transport's
    /// description when the request did not complete, else the answer. The
    /// login succeeds when the answer has a success status and its body
    /// decodes as a session; that session and `auth` then replace those held
    /// before. Every failure is an authentication failure and changes nothing.
    pub fn authenticate_reply(
        &mut self,
        auth: Authentication,
        reply: Result<Answer<SessionData>, String>,
    ) -> (r: Result<(), TotalComfortError>)
        ensures
            r is Ok <==> (reply matches Ok(a) && spec_is_success(a.status.code) && a.body is Ok),
            reply matches Err(m) ==> fails_with(r, ErrorKind::Authentication, m@),
            reply matches Ok(a) ==> (!spec_is_success(a.status.code) ==> fails_with(
                r,
                ErrorKind::Authentication,
                a.status.text@,
            )),
            reply matches Ok(a) ==> (spec_is_success(a.status.code) ==> (a.body matches Err(m)
                ==> fails_with(r, ErrorKind::Authentication, m@))),
            r is Err ==> r->Err_0.spec_kind() == ErrorKind::Authentication && *final(self)
                == *old(self),
            r is Ok ==> *final(self) == old(self).logged_in(auth, reply->Ok_0.body->Ok_0)
                && final(self).spec_session() == Some(reply->Ok_0.body->Ok_0)
                && final(self).spec_credentials() == Some(auth),
    {
        match reply {
            Err(m) => Err(TotalComfortError::AuthenticationFailed(m)),
            Ok(a) => {
                if is_success(a.status.code) {
                    match a.body {
                        Ok(s) => {
                            self.session = Some(s);
                            self.credentials = Some(auth);
                            Ok(())
                        },
                        Err(m) => Err(TotalComfortError::AuthenticationFailed(m)),
                    }
                } else {
                    Err(TotalComfortError::AuthenticationFailed(a.status.text))
                }
            },
        }
    }

    /// The renewal request for the held session: a PUT that carries its token.
    pub fn renew_request(&self) -> (r: Result<Request, TotalComfortError>)
        ensures
            r is Ok <==> self.spec_session() is Some,
            self.spec_session() is None ==> fails_with(r, ErrorKind::Renew, MUST_AUTHENTICATE@),
            self.spec_session() matches Some(s) ==> request_is(
                r->Ok_0,
                Method::Put,
                PAGE_RENEW@,
                renew_headers(s.session_id@),
                seq![],
                seq![],
            ),
    {
        match &self.session {
            None => Err(TotalComfortError::RenewFailed(String::from_str(MUST_AUTHENTICATE))),
            Some(s) => {
                let mut headers: Vec<(String, String)> = Vec::new();
                headers.push((String::from_str(HEADER_SESSION_ID), s.session_id.clone()));
                headers.push(pair(HEADER_ACCEPT, MEDIA_JSON));
                headers.push(pair(HEADER_CONTENT_LENGTH, "0"));
                let r = Request {
                    method: Method::Put,
                    url: page_url(PAGE_RENEW),
                    headers,
                    query: Vec::new(),
                    body: Vec::new(),
                };
                assert(pairs_view(r.headers@) =~= renew_headers(s.session_id@));
                assert(pairs_view(r.query@) =~= seq![]);
                assert(pairs_view(r.body@) =~= seq![]);
                Ok(r)
            },
        }
    }

    /// Judges the server's reply to the renewal request (`Err` with the
    /// transport's description when it did not complete). The values of the
    /// application identifier, user name and password variables, read when
    /// the reply arrived, serve only when the server answers that the session
    /// is unknown: the renewal then falls back to one login with those
    /// credentials, whose request this returns, and whose completion by
    /// `authenticate_reply` is the renewal's outcome. A client without a
    /// session fails as `renew_request` does. Nothing held changes.
    pub fn renew_reply(
        &self,
        reply: Result<Status, String>,
        application_id: Option<String>,
        username: Option<String>,
        password: Option<String>,
    ) -> (r: Result<RenewStep, TotalComfortError>)
        ensures
            self.spec_session() is None ==> fails_with(r, ErrorKind::Renew, MUST_AUTHENTICATE@),
            self.spec_session() is Some ==> (reply matches Err(m) ==> fails_with(
                r,
                ErrorKind::Renew,
                m@,
            )),
            self.spec_session() is Some ==> (reply matches Ok(st) ==> (spec_is_success(st.code)
                ==> r matches Ok(RenewStep::Renewed))),
            self.spec_session() is Some ==> (reply matches Ok(st) ==> (st.code
                == STATUS_UNAUTHORIZED ==> fallback_login(r, application_id, username, password))),
            self.spec_session() is Some ==> (reply matches Ok(st) ==> (!spec_is_success(st.code)
                && st.code != STATUS_UNAUTHORIZED ==> fails_with(r, ErrorKind::Renew, st.text@))),
    {
        if self.session.is_none() {
            return Err(TotalComfortError::RenewFailed(String::from_str(MUST_AUTHENTICATE)));
        }
        match reply {
            Err(m) => Err(TotalComfortError::RenewFailed(m)),
            Ok(st) => {
                if is_success(st.code) {
                    Ok(RenewStep::Renewed)
                } else if st.code == STATUS_UNAUTHORIZED {
                    match Authentication::from_env(application_id, username, password) {
                        Err(e) => Err(e),
                        Ok(auth) => {
                            let login = Self::authenticate_request(&auth);
                            Ok(RenewStep::Reauthenticate(auth, login))
                        },
                    }
                } else {
                    Err(TotalComfortError::RenewFailed(st.text))
                }
            },
        }
    }

    /// The request for the user's locations with all their data, carrying the
    /// held session's token and its user's id.
    pub fn get_locations_request(&self) -> (r: Result<Request, TotalComfortError>)
        ensures
            r is Ok <==> self.spec_session() is Some,
            self.spec_session() is None ==> fails_with(r, ErrorKind::Retrieve, MUST_AUTHENTICATE@),
            self.spec_session() matches Some(s) ==> request_is(
                r->Ok_0,
                Method::Get,
                PAGE_LOCATIONS@,
                locations_headers(s.session_id@),
                locations_query(s.user_info.user_id),
                seq![],
            ),
    {
        match &self.session {
            None => Err(TotalComfortError::DataRetrive(String::from_str(MUST_AUTHENTICATE))),
            Some(s) => {
                let mut headers: Vec<(String, String)> = Vec::new();
                headers.push(pair(HEADER_ACCEPT, MEDIA_JSON));
                headers.push((String::from_str(HEADER_SESSION_ID), s.session_id.clone()));
                let mut query: Vec<(String, String)> = Vec::new();
                query.push((String::from_str("userId"), to_decimal(s.user_info.user_id)));
                query.push(pair("allData", "true"));
                let r = Request {
                    method: Method::Get,
                    url: page_url(PAGE_LOCATIONS),
                    headers,
                    query,
                    body: Vec::new(),
                };
                assert(pairs_view(r.headers@) =~= locations_headers(s.session_id@));
                assert(pairs_view(r.query@) =~= locations_query(s.user_info.user_id));
                assert(pairs_view(r.body@) =~= seq![]);
                Ok(r)
            },
        }
    }

    /// Completes a location request from the server's reply (`Err` with the
    /// transport's description when it did not complete). It yields the
    /// decoded body of an answer with a success status. An unauthorized
    /// answer is an authentication failure, which tells the caller to renew;
    /// any other refusal, an undecodable body or a transport failure is a
    /// retrieval failure. A client without a session fails as
    /// `get_locations_request` does.
    pub fn get_locations_reply<T>(&self, reply: Result<Answer<T>, String>) -> (r: Result<
        T,
        TotalComfortError,
    >)
        ensures
            r is Ok <==> (self.spec_session() is Some && (reply matches Ok(a) && spec_is_success(
                a.status.code,
            ) && a.body is Ok)),
            self.spec_session() is None ==> fails_with(r, ErrorKind::Retrieve, MUST_AUTHENTICATE@),
            self.spec_session() is Some ==> (reply matches Err(m) ==> fails_with(
                r,
                ErrorKind::Retrieve,
                m@,
            )),
            self.spec_session() is Some ==> (reply matches Ok(a) ==> (spec_is_success(a.status.code)
                ==> (a.body matches Ok(v) ==> r == Ok::<T, TotalComfortError>(v)))),
            self.spec_session() is Some ==> (reply matches Ok(a) ==> (spec_is_success(a.status.code)
                ==> (a.body matches Err(m) ==> fails_with(r, ErrorKind::Retrieve, m@)))),
            self.spec_session() is Some ==> (reply matches Ok(a) ==> (a.status.code
                == STATUS_UNAUTHORIZED ==> fails_with(r, ErrorKind::Authentication, a.status.text@))),
            self.spec_session() is Some ==> (reply matches Ok(a) ==> (!spec_is_success(a.status.code)
                && a.status.code != STATUS_UNAUTHORIZED ==> fails_with(
                r,
                ErrorKind::Retrieve,
                a.status.text@,
            ))),
    {
        if self.session.is_none() {
            return Err(TotalComfortError::DataRetrive(String::from_str(MUST_AUTHENTICATE)));
        }
        match reply {
            Err(m) => Err(TotalComfortError::DataRetrive(m)),
            Ok(a) => {
                if is_success(a.status.code) {
                    match a.body {
                        Ok(v) => Ok(v),
                        Err(m) => Err(TotalComfortError::DataRetrive(m)),
                    }
                } else if a.status.code == STATUS_UNAUTHORIZED {
                    Err(TotalComfortError::AuthenticationFailed(a.status.text))
                } else {
                    Err(TotalComfortError::DataRetrive(a.status.text))
                }
            },
        }
    }
}

} // verus!

verus! {

/// After a login with `auth` that opened session `s`, the client is
/// authenticated with exactly that session and those credentials, and the
/// location request it builds carries the session's token in its
/// `sessionId` header and the session user's id, in decimal, in its query.
pub proof fn lemma_login_enables_fetch(
    before: TotalComfort,
    auth: Authentication,
    s: SessionData,
    after: TotalComfort,
)
    requires
        after == before.logged_in(auth, s),
    ensures
        after.spec_session() == Some(s),
        after.spec_credentials() == Some(auth),
        locations_headers(after.spec_session()->Some_0.session_id@).contains(
            (HEADER_SESSION_ID@, s.session_id@),
        ),
        locations_query(after.spec_session()->Some_0.user_info.user_id).contains(
            ("userId"@, decimal(s.user_info.user_id as nat)),
        ),
{
    assert(locations_headers(s.session_id@)[1] == (HEADER_SESSION_ID@, s.session_id@));
    assert(locations_query(s.user_info.user_id)[0] == ("userId"@, decimal(s.user_info.user_id as nat)));
}

} // verus!

verus! {

/// When a renewal falls back to a login with the environment's values and
/// that login completes with session `s`, the client holds `s` and
/// credentials made of exactly those values.
pub proof fn lemma_fallback_login_holds_environment_credentials(
    before: TotalComfort,
    r: Result<RenewStep, TotalComfortError>,
    application_id: Option<String>,
    username: Option<String>,
    password: Option<String>,
    s: SessionData,
    after: TotalComfort,
)
    requires
        fallback_login(r, application_id, username, password),
        r matches Ok(RenewStep::Reauthenticate(a, _)) ==> after == before.logged_in(a, s),
        r is Ok,
    ensures
        application_id is Some && username is Some && password is Some,
        after.spec_session() == Some(s),
        after.spec_credentials() matches Some(a) ==> a.spec_application_id()
            == application_id->Some_0@ && a.spec_username() == username->Some_0@
            && a.spec_password() == password->Some_0@,
        after.spec_credentials() is Some,
{
}

} // verus!

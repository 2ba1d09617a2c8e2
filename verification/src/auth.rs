//! Source authentication: the credential check and the handshake decision.
//!
//! The handshake is the system's sole trust boundary: a source must present
//! username, password and announce port, and all three must match exactly
//! before any page from its connection is trusted. Missing credentials are
//! reported as such; a mismatch gets one generic rejection, so the reply
//! never reveals which field was wrong.

use vstd::prelude::*;

use crate::args::parse_u16_spec;

verus! {

/// True exactly when the two strings hold the same characters.
pub fn str_eq(a: &str, b: &str) -> (r: bool)
    ensures
        r == (a@ == b@),
{
    let owned_a: String = a.to_owned();
    let owned_b: String = b.to_owned();
    owned_a == owned_b
}

/// The identity a source must present, immutable after load.
pub struct Credentials {
    pub username: String,
    pub password: String,
    pub broadcast_port: u16,
}

impl Credentials {
    /// All three handshake fields are present and equal the configured values.
    pub open spec fn matches_spec(
        self,
        username: Option<&str>,
        password: Option<&str>,
        port: Option<u16>,
    ) -> bool {
        &&& username matches Some(u) && u@ == self.username@
        &&& password matches Some(p) && p@ == self.password@
        &&& port == Some(self.broadcast_port)
    }

    /// The pure equality check over (username, password, announce port):
    /// true exactly when every field is present and matches.
    pub fn validate(
        &self,
        username: Option<&str>,
        password: Option<&str>,
        port: Option<u16>,
    ) -> (r: bool)
        ensures
            r == self.matches_spec(username, password, port),
    {
        let user_ok = match username {
            Some(u) => str_eq(u, self.username.as_str()),
            None => false,
        };
        let pass_ok = match password {
            Some(p) => str_eq(p, self.password.as_str()),
            None => false,
        };
        let port_ok = match port {
            Some(p) => p == self.broadcast_port,
            None => false,
        };
        user_ok && pass_ok && port_ok
    }
}

/// The verdict on one source handshake.
#[derive(Clone, Copy, Debug, PartialEq, Eq, Structural)]
pub enum HandshakeOutcome {
    /// All three fields present and matching: the source may announce.
    Accepted,
    /// Username or password missing from the request.
    MissingCredentials,
    /// The port header is missing or is not a decimal port number.
    InvalidPort,
    /// Every field present and readable, but at least one does not match.
    Mismatch,
}

/// The port header's value: the decimal reading of the header, if present.
pub open spec fn port_header_value(port: Option<&str>) -> Option<u16> {
    match port {
        Some(s) => parse_u16_spec(s@),
        None => None,
    }
}

/// The handshake rule: missing username or password is reported first, then
/// a missing or unreadable port, and only a fully readable request is
/// checked against the credentials.
pub open spec fn handshake_spec(
    creds: Credentials,
    username: Option<&str>,
    password: Option<&str>,
    port: Option<&str>,
) -> HandshakeOutcome {
    if username is None || password is None {
        HandshakeOutcome::MissingCredentials
    } else if port_header_value(port) is None {
        HandshakeOutcome::InvalidPort
    } else if creds.matches_spec(username, password, port_header_value(port)) {
        HandshakeOutcome::Accepted
    } else {
        HandshakeOutcome::Mismatch
    }
}

/// Decide one handshake from the request's header fields, exactly as
/// [`handshake_spec`] says. The caller forwards pages to the bus only on
/// [`HandshakeOutcome::Accepted`].
pub fn validate_headers(
    creds: &Credentials,
    username: Option<&str>,
    password: Option<&str>,
    port: Option<&str>,
) -> (r: HandshakeOutcome)
    ensures
        r == handshake_spec(*creds, username, password, port),
{
    if username.is_none() || password.is_none() {
        return HandshakeOutcome::MissingCredentials;
    }
    let parsed: Option<u16> = match port {
        Some(s) => match crate::args::parse_port(s) {
            Ok(v) => Some(v),
            Err(_) => None,
        },
        None => None,
    };
    if parsed.is_none() {
        return HandshakeOutcome::InvalidPort;
    }
    if creds.validate(username, password, parsed) {
        HandshakeOutcome::Accepted
    } else {
        HandshakeOutcome::Mismatch
    }
}

impl HandshakeOutcome {
    /// The status code the handshake reply carries: switching protocols on
    /// acceptance, and the documented rejection codes otherwise.
    pub fn status(&self) -> (s: u16)
        ensures
            *self is Accepted ==> s == 101,
            *self is MissingCredentials ==> s == 401,
            *self is InvalidPort ==> s == 400,
            *self is Mismatch ==> s == 403,
    {
        match self {
            HandshakeOutcome::Accepted => 101,
            HandshakeOutcome::MissingCredentials => 401,
            HandshakeOutcome::InvalidPort => 400,
            HandshakeOutcome::Mismatch => 403,
        }
    }

    /// The body text of a rejection reply; empty on acceptance.
    pub fn message(&self) -> (m: String)
        ensures
            *self is Accepted ==> m@ == Seq::<char>::empty(),
            *self is MissingCredentials ==> m@ == "Missing credentials"@,
            *self is InvalidPort ==> m@ == "Missing or invalid port"@,
            *self is Mismatch ==> m@ == "Credentials do not match"@,
    {
        match self {
            HandshakeOutcome::Accepted => String::new(),
            HandshakeOutcome::MissingCredentials => "Missing credentials".to_owned(),
            HandshakeOutcome::InvalidPort => "Missing or invalid port".to_owned(),
            HandshakeOutcome::Mismatch => "Credentials do not match".to_owned(),
        }
    }
}

} // verus!

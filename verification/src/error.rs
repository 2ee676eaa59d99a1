//! The messages that the broker shows to its clients.

use vstd::prelude::*;

verus! {

/// What went wrong with a request, as far as the client is told.
#[derive(Clone, Copy, Debug, PartialEq, Eq, Structural)]
pub enum HTTPError {
    BadRequest,
    Unauthorized,
    Forbidden,
    FileNotFound,
    ServerError,
    RemoteServiceUnavailable,
    AuthorizationTokenMissMatch,
    NotAValidHost,
    SessionExpired,
}

/// Why the profile of a freshly logged-in user could not be read.
#[derive(Clone, Copy, Debug, PartialEq, Eq, Structural)]
pub enum FetchError {
    AuthError,
    FetchFailed,
}

impl HTTPError {
    /// The text of each error.
    pub open spec fn message_text(self) -> Seq<char> {
        match self {
            HTTPError::BadRequest => "This request is incorrect. Please check your request."@,
            HTTPError::Unauthorized => "You have to be authorized to access this api."@,
            HTTPError::Forbidden => "You have no premission to access this api."@,
            HTTPError::FileNotFound => "Cannot found api. Please check your api path."@,
            HTTPError::ServerError => "Our server is unreachable this time."@,
            HTTPError::RemoteServiceUnavailable => "Remote service is unavailable"@,
            HTTPError::AuthorizationTokenMissMatch => "This authorization token is not for this api"@,
            HTTPError::NotAValidHost => "This is not a valid host"@,
            HTTPError::SessionExpired => "This login session is expired, please login again"@,
        }
    }

    pub fn message(&self) -> (text: &'static str)
        ensures
            text@ == self.message_text(),
    {
        match *self {
            HTTPError::BadRequest => "This request is incorrect. Please check your request.",
            HTTPError::Unauthorized => "You have to be authorized to access this api.",
            HTTPError::Forbidden => "You have no premission to access this api.",
            HTTPError::FileNotFound => "Cannot found api. Please check your api path.",
            HTTPError::ServerError => "Our server is unreachable this time.",
            HTTPError::RemoteServiceUnavailable => "Remote service is unavailable",
            HTTPError::AuthorizationTokenMissMatch => "This authorization token is not for this api",
            HTTPError::NotAValidHost => "This is not a valid host",
            HTTPError::SessionExpired => "This login session is expired, please login again",
        }
    }
}

/// How a request fails at the broker. A failure is named once, where it is
/// found, and goes out as it was named.
#[derive(Clone, Copy, Debug, PartialEq, Eq, Structural)]
pub enum ClassifiedFailure {
    /// No `Authorization` header, or one that is not `Bearer` and a token.
    MissingCredential,
    /// A token that this broker did not sign, or of another shape than the
    /// endpoint takes.
    MalformedCredential,
    /// A token of this broker whose expiry time has come.
    ExpiredCredential,
    /// The host is not this portal: it lacks the fingerprint, or has no
    /// such page.
    HostInvalid,
    /// The request to the portal did not get through.
    UpstreamUnreachable,
    /// The portal replied with a status that is neither a success nor a
    /// redirection.
    UpstreamBadStatus,
    /// The portal has dropped the session that was relayed to it.
    SessionExpiredUpstream,
    /// The portal did not take the login, or the profile could not be read.
    LoginRejected,
}

impl ClassifiedFailure {
    /// The HTTP status that each failure goes out with.
    pub open spec fn status_of(self) -> u16 {
        match self {
            ClassifiedFailure::MissingCredential => 401,
            ClassifiedFailure::MalformedCredential => 502,
            ClassifiedFailure::ExpiredCredential => 403,
            ClassifiedFailure::HostInvalid => 400,
            ClassifiedFailure::UpstreamUnreachable => 503,
            ClassifiedFailure::UpstreamBadStatus => 502,
            ClassifiedFailure::SessionExpiredUpstream => 403,
            ClassifiedFailure::LoginRejected => 403,
        }
    }

    /// The message that each failure goes out with.
    pub open spec fn message_of(self) -> Seq<char> {
        match self {
            ClassifiedFailure::MissingCredential => HTTPError::Unauthorized.message_text(),
            ClassifiedFailure::MalformedCredential => HTTPError::AuthorizationTokenMissMatch.message_text(),
            ClassifiedFailure::ExpiredCredential => HTTPError::SessionExpired.message_text(),
            ClassifiedFailure::HostInvalid => HTTPError::NotAValidHost.message_text(),
            ClassifiedFailure::UpstreamUnreachable => HTTPError::RemoteServiceUnavailable.message_text(),
            ClassifiedFailure::UpstreamBadStatus => HTTPError::ServerError.message_text(),
            ClassifiedFailure::SessionExpiredUpstream => HTTPError::SessionExpired.message_text(),
            ClassifiedFailure::LoginRejected => "Login failed"@,
        }
    }

    /// What each failure names as the place where it arose, if anything.
    pub open spec fn place_of(self) -> Option<Seq<char>> {
        match self {
            ClassifiedFailure::HostInvalid => Some("Argument: host"@),
            ClassifiedFailure::UpstreamUnreachable => Some("Remote server"@),
            ClassifiedFailure::UpstreamBadStatus => Some("Return status code"@),
            _ => None,
        }
    }

    pub fn status(&self) -> (code: u16)
        ensures
            code == self.status_of(),
            400 <= code <= 599,
    {
        match *self {
            ClassifiedFailure::MissingCredential => 401,
            ClassifiedFailure::MalformedCredential => 502,
            ClassifiedFailure::ExpiredCredential => 403,
            ClassifiedFailure::HostInvalid => 400,
            ClassifiedFailure::UpstreamUnreachable => 503,
            ClassifiedFailure::UpstreamBadStatus => 502,
            ClassifiedFailure::SessionExpiredUpstream => 403,
            ClassifiedFailure::LoginRejected => 403,
        }
    }

    pub fn message(&self) -> (text: &'static str)
        ensures
            text@ == self.message_of(),
    {
        match *self {
            ClassifiedFailure::MissingCredential => HTTPError::Unauthorized.message(),
            ClassifiedFailure::MalformedCredential => HTTPError::AuthorizationTokenMissMatch.message(),
            ClassifiedFailure::ExpiredCredential => HTTPError::SessionExpired.message(),
            ClassifiedFailure::HostInvalid => HTTPError::NotAValidHost.message(),
            ClassifiedFailure::UpstreamUnreachable => HTTPError::RemoteServiceUnavailable.message(),
            ClassifiedFailure::UpstreamBadStatus => HTTPError::ServerError.message(),
            ClassifiedFailure::SessionExpiredUpstream => HTTPError::SessionExpired.message(),
            ClassifiedFailure::LoginRejected => "Login failed",
        }
    }

    pub fn place(&self) -> (named: Option<&'static str>)
        ensures
            crate::utils::place_view(named) == self.place_of(),
    {
        match *self {
            ClassifiedFailure::HostInvalid => Some("Argument: host"),
            ClassifiedFailure::UpstreamUnreachable => Some("Remote server"),
            ClassifiedFailure::UpstreamBadStatus => Some("Return status code"),
            _ => None,
        }
    }
}

} // verus!

//! The way into every endpoint that takes a credential: from the
//! `Authorization` header of a request to the credential it carries, or to
//! the reason why it carries none.

use crate::claims::Claim;
use crate::credential::{accept, credential_verdict, ClaimShape};
use crate::error::ClassifiedFailure;
use crate::secure::{verified_claims, JWTError, KeyPair};
use crate::text::{chars_of, same_chars, split_words, string_of, words};
use vstd::prelude::*;

verus! {

/// The shapes of credential that an endpoint may take.
#[derive(Clone, Copy, Debug, PartialEq, Eq, Structural)]
pub enum AuthorizationType {
    LoginAuthToken,
    AuthToken,
}

/// The credential that a request was let in with.
#[derive(Debug, Clone)]
pub struct AuthorizationToken<T>(pub T);

#[derive(Clone, Copy, Debug, PartialEq, Eq, Structural)]
pub enum AuthTokenError {
    MissingToken,
    TokenExpired,
}

/// The body of a request, by the format in which it came.
pub enum IncomingDataWrapper<T> {
    Form(T),
    Json(T),
}

#[derive(Debug)]
pub enum IncomingError {
    MissingArguments(Vec<String>),
    InvalidMediaType,
}

/// The formats of body that are read.
#[derive(Clone, Copy, Debug, PartialEq, Eq, Structural)]
pub enum IncomingFormat {
    Form,
    Json,
}

/// The format to read a body in, from what its media type is: form data
/// goes before JSON, and a body without a media type, or with another one,
/// is not read.
pub fn incoming_format(media: Option<(bool, bool)>) -> (format: Result<IncomingFormat, IncomingError>)
    ensures
        match media {
            Some((is_form_data, is_json)) => if is_form_data {
                format matches Ok(IncomingFormat::Form)
            } else if is_json {
                format matches Ok(IncomingFormat::Json)
            } else {
                format matches Err(IncomingError::InvalidMediaType)
            },
            None => format matches Err(IncomingError::InvalidMediaType),
        },
{
    match media {
        Some((is_form_data, is_json)) => {
            if is_form_data {
                Ok(IncomingFormat::Form)
            } else if is_json {
                Ok(IncomingFormat::Json)
            } else {
                Err(IncomingError::InvalidMediaType)
            }
        },
        None => Err(IncomingError::InvalidMediaType),
    }
}

pub fn decode_incoming<T>(incoming: IncomingDataWrapper<T>) -> (data: T)
    ensures
        data == match incoming {
            IncomingDataWrapper::Form(inner) => inner,
            IncomingDataWrapper::Json(inner) => inner,
        },
{
    match incoming {
        IncomingDataWrapper::Form(d) => d,
        IncomingDataWrapper::Json(d) => d,
    }
}

/// The text of a header that may be missing.
pub open spec fn header_view(header: Option<&str>) -> Option<Seq<char>> {
    match header {
        Some(text) => Some(text@),
        None => None,
    }
}

/// The token that an `Authorization` header carries: the header is made of
/// two words, of which the first is `Bearer`, and the token is the second.
pub open spec fn bearer_of(header: Option<Seq<char>>) -> Option<Seq<char>> {
    match header {
        Some(text) => if words(text).len() == 2 && words(text)[0] == "Bearer"@ {
            Some(words(text)[1])
        } else {
            None
        },
        None => None,
    }
}

/// Takes the token out of an `Authorization` header.
pub fn bearer_token(header: Option<&str>) -> (token: Option<String>)
    ensures
        match token {
            Some(text) => bearer_of(header_view(header)) == Some(text@),
            None => bearer_of(header_view(header)) is None,
        },
{
    match header {
        Some(text) => {
            let parts = split_words(&chars_of(text));
            if parts.len() == 2 && same_chars(&parts[0], &chars_of("Bearer")) {
                assert(crate::text::word_views(parts@)[0] == parts@[0]@);
                assert(crate::text::word_views(parts@)[1] == parts@[1]@);
                Some(string_of(&parts[1]))
            } else {
                proof {
                    if parts@.len() == 2 {
                        assert(crate::text::word_views(parts@)[0] == parts@[0]@);
                    }
                }
                None
            }
        },
        None => None,
    }
}

/// Why a token is turned away, as a failure of the request.
pub open spec fn failure_of(error: JWTError) -> ClassifiedFailure {
    match error {
        JWTError::Expired => ClassifiedFailure::ExpiredCredential,
        JWTError::Invalid => ClassifiedFailure::MalformedCredential,
    }
}

/// What is decided at the time `now` for a request with this
/// `Authorization` header, where `opened` is the claim set that the check of
/// the token's signature let through, if it let one through.
///
/// Without a token in the header the credential is missing, whatever else
/// holds. With one, the token is judged as a credential of shape `T`.
pub open spec fn entry_verdict<T: ClaimShape>(
    header: Option<Seq<char>>,
    opened: Option<Map<Seq<char>, Claim>>,
    now: u64,
) -> Result<T::V, ClassifiedFailure> {
    match bearer_of(header) {
        None => Err(ClassifiedFailure::MissingCredential),
        Some(_) => match credential_verdict::<T>(opened, now) {
            Ok(value) => Ok(value),
            Err(error) => Err(failure_of(error)),
        },
    }
}

/// What the check of a token's signature gives for the token that a header
/// carries, under a key pair.
pub open spec fn opened_by(key: KeyPair, header: Option<Seq<char>>) -> Option<Map<Seq<char>, Claim>> {
    match bearer_of(header) {
        Some(token) => verified_claims(token, key.public_pem(), key.scheme()),
        None => None,
    }
}

/// Reads the credential of shape `T` that a request carries in its
/// `Authorization` header, at the time `now`. Nothing but the header, the
/// key pair and the time is looked at.
pub fn authorize<T: ClaimShape>(key: &KeyPair, authorization: Option<&str>, now: u64) -> (decided:
    Result<T, ClassifiedFailure>)
    ensures
        match decided {
            Ok(credential) => entry_verdict::<T>(
                header_view(authorization),
                opened_by(*key, header_view(authorization)),
                now,
            ) matches Ok(value) && value == credential@,
            Err(failure) => entry_verdict::<T>(
                header_view(authorization),
                opened_by(*key, header_view(authorization)),
                now,
            ) matches Err(refusal) && refusal == failure,
        },
{
    match bearer_token(authorization) {
        None => Err(ClassifiedFailure::MissingCredential),
        Some(token) => match accept::<T>(key.open_jwt(token.as_str()), now) {
            Ok(credential) => Ok(credential),
            Err(JWTError::Expired) => Err(ClassifiedFailure::ExpiredCredential),
            Err(JWTError::Invalid) => Err(ClassifiedFailure::MalformedCredential),
        },
    }
}

/// What the caller of `from_request` is told of a failure.
pub open spec fn token_error_of(failure: ClassifiedFailure) -> AuthTokenError {
    match failure {
        ClassifiedFailure::ExpiredCredential => AuthTokenError::TokenExpired,
        _ => AuthTokenError::MissingToken,
    }
}

impl<T: ClaimShape> AuthorizationToken<T> {
    /// Lets a request in with the credential of shape `T` that its
    /// `Authorization` header carries, or turns it away with the status and
    /// the error of the failure.
    pub fn from_request(key: &KeyPair, authorization: Option<&str>, now: u64) -> (outcome: Result<
        AuthorizationToken<T>,
        (u16, AuthTokenError),
    >)
        ensures
            match outcome {
                Ok(token) => entry_verdict::<T>(
                    header_view(authorization),
                    opened_by(*key, header_view(authorization)),
                    now,
                ) matches Ok(value) && value == token.0@,
                Err((status, error)) => entry_verdict::<T>(
                    header_view(authorization),
                    opened_by(*key, header_view(authorization)),
                    now,
                ) matches Err(failure) && status == failure.status_of() && error
                    == token_error_of(failure),
            },
    {
        match authorize::<T>(key, authorization, now) {
            Ok(credential) => Ok(AuthorizationToken(credential)),
            Err(failure) => {
                let error = match failure {
                    ClassifiedFailure::ExpiredCredential => AuthTokenError::TokenExpired,
                    _ => AuthTokenError::MissingToken,
                };
                Err((failure.status(), error))
            },
        }
    }
}

} // verus!

//! The two shapes of bearer credential, and how each is written as a claim
//! set and read back from one.

use crate::claims::{no_members, Claim, ClaimValue, Claims};
use crate::secure::{
    signed_token, signed_view, verified_claims, JWTError, KeyPair, SignError,
};
use crate::types::{AuthToken, LoginInfoAuthToken, UserProfileShortValue};
use vstd::prelude::*;

verus! {

pub struct ProfileView {
    pub class_name: Seq<char>,
    pub class_number: Seq<char>,
    pub gender: Seq<char>,
    pub school_number: Seq<char>,
    pub user_name: Seq<char>,
}

pub struct HandshakeView {
    pub host: Seq<char>,
    pub site_key: Seq<char>,
    pub cookie: Seq<char>,
    pub need_captcha: bool,
    pub iat: u64,
    pub exp: u64,
}

pub struct SessionView {
    pub host: Seq<char>,
    pub cookie: Seq<char>,
    pub user_data: ProfileView,
    pub iat: u64,
    pub exp: u64,
}

impl View for UserProfileShortValue {
    type V = ProfileView;

    open spec fn view(&self) -> ProfileView {
        ProfileView {
            class_name: self.className@,
            class_number: self.classNumber@,
            gender: self.gender@,
            school_number: self.schoolNumber@,
            user_name: self.userName@,
        }
    }
}

impl View for LoginInfoAuthToken {
    type V = HandshakeView;

    open spec fn view(&self) -> HandshakeView {
        HandshakeView {
            host: self.host@,
            site_key: self.site_key@,
            cookie: self.cookie@,
            need_captcha: self.need_captcha,
            iat: self.iat,
            exp: self.exp,
        }
    }
}

impl View for AuthToken {
    type V = SessionView;

    open spec fn view(&self) -> SessionView {
        SessionView {
            host: self.host@,
            cookie: self.cookie@,
            user_data: self.user_data@,
            iat: self.iat,
            exp: self.exp,
        }
    }
}

/// The members that a profile is written as.
pub open spec fn profile_members(profile: ProfileView) -> Map<Seq<char>, Claim> {
    no_members().insert("className"@, Claim::Text(profile.class_name)).insert(
        "classNumber"@,
        Claim::Text(profile.class_number),
    ).insert("gender"@, Claim::Text(profile.gender)).insert(
        "schoolNumber"@,
        Claim::Text(profile.school_number),
    ).insert("userName"@, Claim::Text(profile.user_name))
}

/// The profile that an object is read as: each of the five fields has to be
/// there, as text. Other members are passed over.
pub open spec fn profile_shape(members: Map<Seq<char>, Claim>) -> Option<ProfileView> {
    match (
        Claims::text_at(members, "className"@),
        Claims::text_at(members, "classNumber"@),
        Claims::text_at(members, "gender"@),
        Claims::text_at(members, "schoolNumber"@),
        Claims::text_at(members, "userName"@),
    ) {
        (Some(class_name), Some(class_number), Some(gender), Some(school_number), Some(user_name)) => {
            Some(ProfileView { class_name, class_number, gender, school_number, user_name })
        },
        _ => None,
    }
}

impl UserProfileShortValue {
    pub fn to_claims(&self) -> (claims: Claims)
        ensures
            claims@ == profile_members(self@),
    {
        let mut claims = Claims::new();
        claims.put("className", ClaimValue::Text(self.className.clone()));
        claims.put("classNumber", ClaimValue::Text(self.classNumber.clone()));
        claims.put("gender", ClaimValue::Text(self.gender.clone()));
        claims.put("schoolNumber", ClaimValue::Text(self.schoolNumber.clone()));
        claims.put("userName", ClaimValue::Text(self.userName.clone()));
        claims
    }

    pub fn from_claims(claims: &Claims) -> (read: Option<UserProfileShortValue>)
        ensures
            match read {
                Some(profile) => profile_shape(claims@) == Some(profile@),
                None => profile_shape(claims@) is None,
            },
    {
        let class_name = match claims.text("className") {
            Some(text) => text,
            None => return None,
        };
        let class_number = match claims.text("classNumber") {
            Some(text) => text,
            None => return None,
        };
        let gender = match claims.text("gender") {
            Some(text) => text,
            None => return None,
        };
        let school_number = match claims.text("schoolNumber") {
            Some(text) => text,
            None => return None,
        };
        let user_name = match claims.text("userName") {
            Some(text) => text,
            None => return None,
        };
        Some(
            UserProfileShortValue {
                className: class_name,
                classNumber: class_number,
                gender,
                schoolNumber: school_number,
                userName: user_name,
            },
        )
    }
}

/// A shape of credential: a record that is written as a claim set and read
/// back from one, and that names the time at which it expires.
pub trait ClaimShape: View + Sized {
    /// The claim set that a credential is written as.
    spec fn members(value: Self::V) -> Map<Seq<char>, Claim>;

    /// The credential that a claim set is read as, where it has this shape.
    spec fn shape(members: Map<Seq<char>, Claim>) -> Option<Self::V>;

    /// When a credential expires, in seconds.
    spec fn expiry(value: Self::V) -> u64;

    fn to_claims(&self) -> (claims: Claims)
        ensures
            claims@ == Self::members(self@),
    ;

    fn from_claims(claims: &Claims) -> (read: Option<Self>)
        ensures
            match read {
                Some(credential) => Self::shape(claims@) == Some(credential@),
                None => Self::shape(claims@) is None,
            },
    ;

    fn expires_at(&self) -> (exp: u64)
        ensures
            exp == Self::expiry(self@),
    ;

    /// A credential is read back from its own claim set as it was.
    proof fn lemma_round_trip(value: Self::V)
        ensures
            Self::shape(Self::members(value)) == Some(value),
    ;
}

/// The names of the members of the credentials differ from each other.
pub proof fn lemma_member_names()
    ensures
        "host"@ != "site_key"@,
        "host"@ != "cookie"@,
        "host"@ != "need_captcha"@,
        "host"@ != "iat"@,
        "host"@ != "exp"@,
        "host"@ != "user_data"@,
        "site_key"@ != "cookie"@,
        "site_key"@ != "need_captcha"@,
        "site_key"@ != "iat"@,
        "site_key"@ != "exp"@,
        "site_key"@ != "user_data"@,
        "cookie"@ != "need_captcha"@,
        "cookie"@ != "iat"@,
        "cookie"@ != "exp"@,
        "cookie"@ != "user_data"@,
        "need_captcha"@ != "iat"@,
        "need_captcha"@ != "exp"@,
        "need_captcha"@ != "user_data"@,
        "iat"@ != "exp"@,
        "iat"@ != "user_data"@,
        "exp"@ != "user_data"@,
        "className"@ != "classNumber"@,
        "className"@ != "gender"@,
        "className"@ != "schoolNumber"@,
        "className"@ != "userName"@,
        "classNumber"@ != "gender"@,
        "classNumber"@ != "schoolNumber"@,
        "classNumber"@ != "userName"@,
        "gender"@ != "schoolNumber"@,
        "gender"@ != "userName"@,
        "schoolNumber"@ != "userName"@,
{
    reveal_strlit("host");
    reveal_strlit("site_key");
    reveal_strlit("cookie");
    reveal_strlit("need_captcha");
    reveal_strlit("iat");
    reveal_strlit("exp");
    reveal_strlit("user_data");
    reveal_strlit("className");
    reveal_strlit("classNumber");
    reveal_strlit("gender");
    reveal_strlit("schoolNumber");
    reveal_strlit("userName");
    assert("host"@.len() == 4);
    assert("site_key"@.len() == 8);
    assert("cookie"@.len() == 6);
    assert("need_captcha"@.len() == 12);
    assert("iat"@.len() == 3);
    assert("exp"@.len() == 3);
    assert("user_data"@.len() == 9);
    assert("className"@.len() == 9);
    assert("classNumber"@.len() == 11);
    assert("gender"@.len() == 6);
    assert("schoolNumber"@.len() == 12);
    assert("userName"@.len() == 8);
    assert("iat"@[0] != "exp"@[0]);
}

/// A profile is read back from its own members as it was.
pub proof fn lemma_profile_round_trip(profile: ProfileView)
    ensures
        profile_shape(profile_members(profile)) == Some(profile),
{
    lemma_member_names();
}

impl ClaimShape for LoginInfoAuthToken {
    open spec fn members(value: HandshakeView) -> Map<Seq<char>, Claim> {
        no_members().insert("host"@, Claim::Text(value.host)).insert(
            "site_key"@,
            Claim::Text(value.site_key),
        ).insert("cookie"@, Claim::Text(value.cookie)).insert(
            "need_captcha"@,
            Claim::Flag(value.need_captcha),
        ).insert("iat"@, Claim::Number(value.iat as int)).insert(
            "exp"@,
            Claim::Number(value.exp as int),
        )
    }

    open spec fn shape(members: Map<Seq<char>, Claim>) -> Option<HandshakeView> {
        match (
            Claims::text_at(members, "host"@),
            Claims::text_at(members, "site_key"@),
            Claims::text_at(members, "cookie"@),
            Claims::flag_at(members, "need_captcha"@),
            Claims::number_at(members, "iat"@),
            Claims::number_at(members, "exp"@),
        ) {
            (Some(host), Some(site_key), Some(cookie), Some(need_captcha), Some(iat), Some(exp)) => {
                Some(HandshakeView { host, site_key, cookie, need_captcha, iat, exp })
            },
            _ => None,
        }
    }

    open spec fn expiry(value: HandshakeView) -> u64 {
        value.exp
    }

    fn to_claims(&self) -> (claims: Claims) {
        let mut claims = Claims::new();
        claims.put("host", ClaimValue::Text(self.host.clone()));
        claims.put("site_key", ClaimValue::Text(self.site_key.clone()));
        claims.put("cookie", ClaimValue::Text(self.cookie.clone()));
        claims.put("need_captcha", ClaimValue::Flag(self.need_captcha));
        claims.put("iat", ClaimValue::Number(self.iat));
        claims.put("exp", ClaimValue::Number(self.exp));
        claims
    }

    fn from_claims(claims: &Claims) -> (read: Option<LoginInfoAuthToken>) {
        let host = match claims.text("host") {
            Some(text) => text,
            None => return None,
        };
        let site_key = match claims.text("site_key") {
            Some(text) => text,
            None => return None,
        };
        let cookie = match claims.text("cookie") {
            Some(text) => text,
            None => return None,
        };
        let need_captcha = match claims.flag("need_captcha") {
            Some(flag) => flag,
            None => return None,
        };
        let iat = match claims.number("iat") {
            Some(number) => number,
            None => return None,
        };
        let exp = match claims.number("exp") {
            Some(number) => number,
            None => return None,
        };
        Some(LoginInfoAuthToken { host, site_key, cookie, need_captcha, iat, exp })
    }

    fn expires_at(&self) -> (exp: u64) {
        self.exp
    }

    proof fn lemma_round_trip(value: HandshakeView) {
        lemma_member_names();
    }
}

impl ClaimShape for AuthToken {
    open spec fn members(value: SessionView) -> Map<Seq<char>, Claim> {
        no_members().insert("host"@, Claim::Text(value.host)).insert(
            "cookie"@,
            Claim::Text(value.cookie),
        ).insert("user_data"@, Claim::Record(profile_members(value.user_data))).insert(
            "iat"@,
            Claim::Number(value.iat as int),
        ).insert("exp"@, Claim::Number(value.exp as int))
    }

    open spec fn shape(members: Map<Seq<char>, Claim>) -> Option<SessionView> {
        match (
            Claims::text_at(members, "host"@),
            Claims::text_at(members, "cookie"@),
            Claims::record_at(members, "user_data"@),
            Claims::number_at(members, "iat"@),
            Claims::number_at(members, "exp"@),
        ) {
            (Some(host), Some(cookie), Some(record), Some(iat), Some(exp)) => match profile_shape(
                record,
            ) {
                Some(user_data) => Some(SessionView { host, cookie, user_data, iat, exp }),
                None => None,
            },
            _ => None,
        }
    }

    open spec fn expiry(value: SessionView) -> u64 {
        value.exp
    }

    fn to_claims(&self) -> (claims: Claims) {
        let mut claims = Claims::new();
        claims.put("host", ClaimValue::Text(self.host.clone()));
        claims.put("cookie", ClaimValue::Text(self.cookie.clone()));
        claims.put("user_data", ClaimValue::Record(self.user_data.to_claims()));
        claims.put("iat", ClaimValue::Number(self.iat));
        claims.put("exp", ClaimValue::Number(self.exp));
        claims
    }

    fn from_claims(claims: &Claims) -> (read: Option<AuthToken>) {
        let host = match claims.text("host") {
            Some(text) => text,
            None => return None,
        };
        let cookie = match claims.text("cookie") {
            Some(text) => text,
            None => return None,
        };
        let record = match claims.record("user_data") {
            Some(inner) => inner,
            None => return None,
        };
        let iat = match claims.number("iat") {
            Some(number) => number,
            None => return None,
        };
        let exp = match claims.number("exp") {
            Some(number) => number,
            None => return None,
        };
        match UserProfileShortValue::from_claims(&record) {
            Some(user_data) => Some(AuthToken { host, cookie, user_data, iat, exp }),
            None => None,
        }
    }

    fn expires_at(&self) -> (exp: u64) {
        self.exp
    }

    proof fn lemma_round_trip(value: SessionView) {
        lemma_member_names();
        lemma_profile_round_trip(value.user_data);
    }
}

/// What becomes of a token that is presented as a credential of shape `T`
/// at the time `now`, given the claim set that the check of its signature
/// let through, if it let one through.
///
/// A token that failed that check is invalid, whatever it claims and
/// whenever it expires. One whose claims are not of shape `T` is invalid
/// too. One of the right shape whose expiry time is `now` or earlier has
/// expired. Any other is accepted as the credential it holds.
pub open spec fn credential_verdict<T: ClaimShape>(
    opened: Option<Map<Seq<char>, Claim>>,
    now: u64,
) -> Result<T::V, JWTError> {
    match opened {
        None => Err(JWTError::Invalid),
        Some(members) => match T::shape(members) {
            None => Err(JWTError::Invalid),
            Some(value) => if T::expiry(value) <= now {
                Err(JWTError::Expired)
            } else {
                Ok(value)
            },
        },
    }
}

/// Judges a token presented as a credential of shape `T` at the time `now`,
/// from what the check of its signature gave.
pub fn accept<T: ClaimShape>(opened: Option<Claims>, now: u64) -> (judged: Result<T, JWTError>)
    ensures
        match judged {
            Ok(credential) => credential_verdict::<T>(crate::secure::opened_view(opened), now)
                matches Ok(value) && value == credential@,
            Err(error) => credential_verdict::<T>(crate::secure::opened_view(opened), now)
                matches Err(refusal) && refusal == error,
        },
{
    match opened {
        None => Err(JWTError::Invalid),
        Some(claims) => match T::from_claims(&claims) {
            None => Err(JWTError::Invalid),
            Some(credential) => if credential.expires_at() <= now {
                Err(JWTError::Expired)
            } else {
                Ok(credential)
            },
        },
    }
}

/// Signs a credential into a bearer token: the token that the signing
/// library makes of the claim set that the credential is written as, and a
/// refusal where it makes none.
pub fn sign<T: ClaimShape>(key: &KeyPair, credential: &T) -> (signed: Result<String, SignError>)
    ensures
        signed_view(signed) == signed_token(
            T::members(credential@),
            key.private_pem(),
            key.scheme(),
        ),
{
    let claims = credential.to_claims();
    key.sign_jwt(&claims)
}

/// Reads a bearer token as a credential of shape `T`, at the time `now`.
pub fn verify<T: ClaimShape>(key: &KeyPair, token: &str, now: u64) -> (judged: Result<T, JWTError>)
    ensures
        match judged {
            Ok(credential) => credential_verdict::<T>(
                verified_claims(token@, key.public_pem(), key.scheme()),
                now,
            ) matches Ok(value) && value == credential@,
            Err(error) => credential_verdict::<T>(
                verified_claims(token@, key.public_pem(), key.scheme()),
                now,
            ) matches Err(refusal) && refusal == error,
        },
{
    key.decode_jwt::<T>(token, now)
}

/// Before it expires, a credential is accepted from its own claim set as it
/// was written.
pub proof fn lemma_accepted_unchanged<T: ClaimShape>(value: T::V, now: u64)
    requires
        now < T::expiry(value),
    ensures
        credential_verdict::<T>(Some(T::members(value)), now) == Ok::<T::V, JWTError>(value),
{
    T::lemma_round_trip(value);
}

/// From its expiry time on, a credential is turned away as expired.
pub proof fn lemma_expired_from_expiry<T: ClaimShape>(value: T::V, now: u64)
    requires
        T::expiry(value) <= now,
    ensures
        credential_verdict::<T>(Some(T::members(value)), now) == Err::<T::V, JWTError>(
            JWTError::Expired,
        ),
{
    T::lemma_round_trip(value);
}

/// A token that the check of its signature turned away is invalid at every
/// time and under every shape: no expiry time makes it expired or accepted.
pub proof fn lemma_unsigned_is_invalid<T: ClaimShape>(now: u64)
    ensures
        credential_verdict::<T>(None, now) == Err::<T::V, JWTError>(JWTError::Invalid),
{
}

/// The claims of a handshake credential are never read as a session
/// credential, nor those of a session credential as a handshake credential.
pub proof fn lemma_shapes_apart(handshake: HandshakeView, session: SessionView, now: u64)
    ensures
        <AuthToken as ClaimShape>::shape(<LoginInfoAuthToken as ClaimShape>::members(handshake))
            is None,
        <LoginInfoAuthToken as ClaimShape>::shape(<AuthToken as ClaimShape>::members(session))
            is None,
        credential_verdict::<AuthToken>(
            Some(<LoginInfoAuthToken as ClaimShape>::members(handshake)),
            now,
        ) == Err::<SessionView, JWTError>(JWTError::Invalid),
        credential_verdict::<LoginInfoAuthToken>(
            Some(<AuthToken as ClaimShape>::members(session)),
            now,
        ) == Err::<HandshakeView, JWTError>(JWTError::Invalid),
{
    lemma_member_names();
}

} // verus!

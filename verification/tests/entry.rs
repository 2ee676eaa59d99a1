use hlhsinfo_backend_server::credential::sign;
use hlhsinfo_backend_server::error::{ClassifiedFailure, FetchError, HTTPError};
use hlhsinfo_backend_server::http::HTTPErrorReturn;
use hlhsinfo_backend_server::request_handler::{
    authorize, bearer_token, decode_incoming, incoming_format, AuthTokenError, AuthorizationToken,
    AuthorizationType, IncomingDataWrapper, IncomingError, IncomingFormat,
};
use hlhsinfo_backend_server::secure::{
    KeyPair, SigningAlgorithm, KEY_BITS, PRIVATE_KEY_FILE, PUBLIC_KEY_FILE,
};
use hlhsinfo_backend_server::types::{AuthToken, Config, LoginInfoAuthToken, UserProfileShortValue};
use hlhsinfo_backend_server::utils::{
    error_message, error_message_at, generate_failure_error, generate_http_error,
    generate_session_expire_error, get_timestamp_millisec, HELLO_MESSAGE,
};

const NOW: u64 = 1_700_000_000;

fn key() -> KeyPair {
    KeyPair::generate(SigningAlgorithm::RS256).expect("a key pair")
}

fn handshake(exp: u64) -> LoginInfoAuthToken {
    LoginInfoAuthToken {
        host: "https://school.example/online/".to_owned(),
        site_key: "tok-123".to_owned(),
        cookie: "ASPSESSIONID=abc".to_owned(),
        need_captcha: false,
        iat: NOW,
        exp,
    }
}

fn session(exp: u64) -> AuthToken {
    AuthToken {
        host: "https://school.example/online/".to_owned(),
        cookie: "ASPSESSIONID=abc".to_owned(),
        user_data: UserProfileShortValue {
            className: "c".to_owned(),
            classNumber: "1".to_owned(),
            gender: "g".to_owned(),
            schoolNumber: "2".to_owned(),
            userName: "u".to_owned(),
        },
        iat: NOW,
        exp,
    }
}

#[test]
fn bearer_header_is_two_words() {
    assert_eq!(bearer_token(Some("Bearer abc.def.ghi")), Some("abc.def.ghi".to_owned()));
    assert_eq!(bearer_token(Some("  Bearer \t abc  ")), Some("abc".to_owned()));
    assert_eq!(bearer_token(Some("Bearer")), None);
    assert_eq!(bearer_token(Some("Bearer a b")), None);
    assert_eq!(bearer_token(Some("bearer abc")), None);
    assert_eq!(bearer_token(Some("Basic abc")), None);
    assert_eq!(bearer_token(Some("Bearerabc")), None);
    assert_eq!(bearer_token(Some("")), None);
    assert_eq!(bearer_token(None), None);
}

#[test]
fn request_without_token_misses_its_credential() {
    let key = key();
    for header in [None, Some(""), Some("Bearer"), Some("Basic abc"), Some("Bearer a b")] {
        let decided: Result<AuthToken, ClassifiedFailure> = authorize(&key, header, NOW);
        assert_eq!(decided.err(), Some(ClassifiedFailure::MissingCredential), "{:?}", header);
    }
}

#[test]
fn request_is_let_in_with_its_credential() {
    let key = key();
    let token = sign(&key, &session(NOW + 60)).expect("a token");
    let header = format!("Bearer {}", token);
    let decided: AuthToken = authorize(&key, Some(&header), NOW).expect("let in");
    assert_eq!(decided.host, "https://school.example/online/");
    assert_eq!(decided.cookie, "ASPSESSIONID=abc");
    assert_eq!(decided.user_data.userName, "u");
    let guarded: AuthorizationToken<AuthToken> =
        AuthorizationToken::from_request(&key, Some(&header), NOW).expect("let in");
    assert_eq!(guarded.0.exp, NOW + 60);
}

#[test]
fn request_is_turned_away_by_kind() {
    let key = key();
    let expired = format!("Bearer {}", sign(&key, &session(NOW)).expect("a token"));
    let decided: Result<AuthToken, ClassifiedFailure> = authorize(&key, Some(&expired), NOW);
    assert_eq!(decided.err(), Some(ClassifiedFailure::ExpiredCredential));
    let guarded: Result<AuthorizationToken<AuthToken>, (u16, AuthTokenError)> =
        AuthorizationToken::from_request(&key, Some(&expired), NOW);
    assert_eq!(guarded.err(), Some((403, AuthTokenError::TokenExpired)));

    let other_shape = format!("Bearer {}", sign(&key, &handshake(NOW + 60)).expect("a token"));
    let decided: Result<AuthToken, ClassifiedFailure> = authorize(&key, Some(&other_shape), NOW);
    assert_eq!(decided.err(), Some(ClassifiedFailure::MalformedCredential));
    let right: Result<LoginInfoAuthToken, ClassifiedFailure> = authorize(&key, Some(&other_shape), NOW);
    assert!(right.is_ok());

    let decided: Result<AuthToken, ClassifiedFailure> = authorize(&key, Some("Bearer not.a.token"), NOW);
    assert_eq!(decided.err(), Some(ClassifiedFailure::MalformedCredential));
    let guarded: Result<AuthorizationToken<AuthToken>, (u16, AuthTokenError)> =
        AuthorizationToken::from_request(&key, Some("Bearer not.a.token"), NOW);
    assert_eq!(guarded.err(), Some((502, AuthTokenError::MissingToken)));
    let guarded: Result<AuthorizationToken<AuthToken>, (u16, AuthTokenError)> =
        AuthorizationToken::from_request(&key, None, NOW);
    assert_eq!(guarded.err(), Some((401, AuthTokenError::MissingToken)));

    let foreign = format!("Bearer {}", sign(&self::key(), &session(NOW + 60)).expect("a token"));
    let decided: Result<AuthToken, ClassifiedFailure> = authorize(&key, Some(&foreign), NOW);
    assert_eq!(decided.err(), Some(ClassifiedFailure::MalformedCredential));
}

#[test]
fn body_format_goes_by_media_type() {
    assert!(matches!(incoming_format(Some((true, false))), Ok(IncomingFormat::Form)));
    assert!(matches!(incoming_format(Some((true, true))), Ok(IncomingFormat::Form)));
    assert!(matches!(incoming_format(Some((false, true))), Ok(IncomingFormat::Json)));
    assert!(matches!(incoming_format(Some((false, false))), Err(IncomingError::InvalidMediaType)));
    assert!(matches!(incoming_format(None), Err(IncomingError::InvalidMediaType)));
    assert_eq!(decode_incoming(IncomingDataWrapper::Form(7)), 7);
    assert_eq!(decode_incoming(IncomingDataWrapper::Json("x".to_owned())), "x");
    assert_ne!(AuthorizationType::LoginAuthToken, AuthorizationType::AuthToken);
}

#[test]
fn messages_of_the_errors() {
    assert_eq!(HTTPError::BadRequest.message(), "This request is incorrect. Please check your request.");
    assert_eq!(HTTPError::Unauthorized.message(), "You have to be authorized to access this api.");
    assert_eq!(HTTPError::Forbidden.message(), "You have no premission to access this api.");
    assert_eq!(HTTPError::FileNotFound.message(), "Cannot found api. Please check your api path.");
    assert_eq!(HTTPError::ServerError.message(), "Our server is unreachable this time.");
    assert_eq!(HTTPError::RemoteServiceUnavailable.message(), "Remote service is unavailable");
    assert_eq!(HTTPError::AuthorizationTokenMissMatch.message(), "This authorization token is not for this api");
    assert_eq!(HTTPError::NotAValidHost.message(), "This is not a valid host");
    assert_eq!(HTTPError::SessionExpired.message(), "This login session is expired, please login again");
    assert_ne!(FetchError::AuthError, FetchError::FetchFailed);
}

#[test]
fn failures_go_out_by_kind() {
    let table = [
        (ClassifiedFailure::MissingCredential, 401, "You have to be authorized to access this api.", None),
        (ClassifiedFailure::MalformedCredential, 502, "This authorization token is not for this api", None),
        (ClassifiedFailure::ExpiredCredential, 403, "This login session is expired, please login again", None),
        (ClassifiedFailure::HostInvalid, 400, "This is not a valid host", Some("Argument: host")),
        (ClassifiedFailure::UpstreamUnreachable, 503, "Remote service is unavailable", Some("Remote server")),
        (ClassifiedFailure::UpstreamBadStatus, 502, "Our server is unreachable this time.", Some("Return status code")),
        (ClassifiedFailure::SessionExpiredUpstream, 403, "This login session is expired, please login again", None),
        (ClassifiedFailure::LoginRejected, 403, "Login failed", None),
    ];
    for (failure, status, message, place) in table {
        assert_eq!(failure.status(), status);
        assert_eq!(failure.message(), message);
        assert_eq!(failure.place(), place);
        let shown = generate_failure_error("/v1/x", failure);
        assert_eq!(shown.code, status);
        assert_eq!(shown.body.message, message);
        match place {
            Some(named) => {
                let wrong = shown.body.wrong.expect("a place");
                assert_eq!(wrong.api.as_deref(), Some("/v1/x"));
                assert_eq!(wrong.at.as_deref(), Some(named));
                assert_eq!(wrong.trace, None);
            }
            None => assert!(shown.body.wrong.is_none()),
        }
    }
}

#[test]
fn outgoing_errors_name_their_place() {
    let before = get_timestamp_millisec();
    let shown = error_message("/v1/login", 403, "Login failed", None);
    assert_eq!(shown.code, 403);
    assert_eq!(shown.body.message, "Login failed");
    assert!(shown.body.wrong.is_none());
    assert!(shown.body.timestamp >= before);
    assert!(shown.body.timestamp <= before + 5000);

    let shown = error_message_at("/v1/getLoginInfo", 400, "Wrong arguments", Some("Argument: host"), 42);
    assert_eq!(shown.code, 400);
    assert_eq!(shown.body.timestamp, 42);
    let wrong = shown.body.wrong.expect("a place");
    assert_eq!(wrong.api.as_deref(), Some("/v1/getLoginInfo"));
    assert_eq!(wrong.trace, None);
    assert_eq!(wrong.at.as_deref(), Some("Argument: host"));

    let shown = generate_http_error("/v1/getLack", HTTPErrorReturn::RequestError("down".to_owned()));
    assert_eq!(shown.code, 503);
    assert_eq!(shown.body.message, "Remote service is unavailable");
    assert_eq!(shown.body.wrong.expect("a place").at.as_deref(), Some("Remote server"));
    let shown = generate_http_error("/v1/getLack", HTTPErrorReturn::StatusCodeError(500));
    assert_eq!(shown.code, 502);
    assert_eq!(shown.body.message, "Our server is unreachable this time.");
    assert_eq!(shown.body.wrong.expect("a place").at.as_deref(), Some("Return status code"));
    let shown = generate_session_expire_error("/v1/getLack");
    assert_eq!(shown.code, 403);
    assert_eq!(shown.body.message, "This login session is expired, please login again");
    assert!(shown.body.wrong.is_none());
}

#[test]
fn settings_and_names_of_an_installation() {
    let config = Config::default();
    assert_eq!(config.provider, "HLHSInfo Open Source");
    assert_eq!(config.port, 1156);
    assert_eq!(config.share_expired, 1800000);
    assert_eq!(config.logininfo_expired, 5);
    assert_eq!(config.login_status_expired, 60);
    assert_eq!(config.failed_expried, 3600000);
    assert_eq!(config.failed_times_lock, 5);
    assert!(config.cache_enabled);
    assert_eq!(config.cache_expired, 48);
    assert_eq!(config.check_cycle, 5);
    assert!(config.enable_record);
    assert_eq!(HELLO_MESSAGE, "Hello from HLHSInfo Server!");
    assert_eq!(PRIVATE_KEY_FILE, "private.pem");
    assert_eq!(PUBLIC_KEY_FILE, "public.pem");
    assert_eq!(KEY_BITS, 2048);
}

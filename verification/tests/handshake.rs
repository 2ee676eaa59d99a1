use hlhsinfo_backend_server::credential::{sign, verify};
use hlhsinfo_backend_server::error::{ClassifiedFailure, FetchError};
use hlhsinfo_backend_server::handshake::{
    base_from, begin_discovery, begin_login, class_from, decide_probe, fetch_class, fetch_user,
    find_header, get_info_from_web, host_error, login_form, login_input, login_request,
    login_request_with, portal_base, read_login, read_probe, step, user_from, HandshakeAction,
    HandshakeState, HostError, IncomingData,
};
use hlhsinfo_backend_server::http::{APIPaths, HTMLRespond, HTTPErrorReturn, HeaderSetting};
use hlhsinfo_backend_server::relay::{
    page_request, read_relay, relay_request, settle_reply, Method, UpstreamRequest,
};
use hlhsinfo_backend_server::request_handler::{IncomingDataWrapper, IncomingError};
use hlhsinfo_backend_server::secure::{KeyPair, SigningAlgorithm};
use hlhsinfo_backend_server::types::{AuthToken, Config, LoginInfoAuthToken, UserProfileShortValue};
use hlhsinfo_backend_server::utils::{is_alive, is_document_logined};

const NOW: u64 = 1_700_000_000;

const LOGIN_PAGE: &str = "<html><head><meta name=\"keywords\" content=\"欣河資訊\"></head><body><form><input name=\"__RequestVerificationToken\" type=\"hidden\" value=\"tok-123\"><input name=\"Loginid\"></form></body></html>";

const LOGIN_PAGE_WITH_CAPTCHA: &str = "<html><head><meta name=\"keywords\" content=\"欣河資訊\"></head><body><form><input name=\"__RequestVerificationToken\" type=\"hidden\" value=\"tok-456\"><img id=\"imgvcode\" src=\"image/vcode.asp\"></form></body></html>";

const OTHER_SITE: &str = "<html><head><meta name=\"keywords\" content=\"something else\"></head><body><input name=\"__RequestVerificationToken\" value=\"x\"></body></html>";

const CLASS_PAGE: &str = "<table><tr><td> 班級ï¼š一年一班\n座號ï¼š07 </td><td>other</td></tr></table>";

const USER_PAGE: &str = "<table><tr id=\"authirty1\"><td> 07\n</td><td>110123</td><td>王 小明</td><td>女</td><td>extra</td></tr></table>";

const LOGGED_OUT: &str = "<html><body><div>未登入</div><div>later</div></body></html>";

fn page(code: u16, html: &str, headers: Vec<(&str, &str)>) -> Result<HTMLRespond, String> {
    Ok(HTMLRespond {
        html: html.to_owned(),
        code,
        header: headers
            .into_iter()
            .map(|(name, value)| HeaderSetting { header: name.to_owned(), value: value.to_owned() })
            .collect(),
    })
}

fn probe_reply(html: &str) -> Result<HTMLRespond, String> {
    page(200, html, vec![("content-type", "text/html"), ("set-cookie", "ASPSESSIONID=abc; path=/")])
}

fn credential() -> LoginInfoAuthToken {
    LoginInfoAuthToken {
        host: "https://school.example/online/".to_owned(),
        site_key: "tok-123".to_owned(),
        cookie: "ASPSESSIONID=abc".to_owned(),
        need_captcha: false,
        iat: NOW,
        exp: NOW + 300,
    }
}

fn input() -> IncomingData {
    IncomingData { username: "s110123".to_owned(), password: "p&ss word".to_owned(), vcode: "".to_owned() }
}

fn sent(action: HandshakeAction) -> UpstreamRequest {
    match action {
        HandshakeAction::Send(request) => request,
        other => panic!("no request: {:?}", other),
    }
}

fn failed(action: HandshakeAction) -> ClassifiedFailure {
    match action {
        HandshakeAction::Fail(failure) => failure,
        other => panic!("no failure: {:?}", other),
    }
}

#[test]
fn base_address_keeps_scheme_and_host_only() {
    assert_eq!(portal_base(Some("https://school.example/some/page?x=1")), Ok("https://school.example/online/".to_owned()));
    assert_eq!(portal_base(Some("http://school.example:8080")), Ok("http://school.example/online/".to_owned()));
    assert_eq!(portal_base(Some("http://192.168.1.10/x")), Ok("http://192.168.1.10/online/".to_owned()));
    assert_eq!(portal_base(Some("http://[::1]:80/")), Ok("http://[::1]/online/".to_owned()));
    assert_eq!(portal_base(Some("HTTP://School.Example/")), Ok("http://school.example/online/".to_owned()));
    assert_eq!(portal_base(Some("school.example")), Err(HostError::Unreadable));
    assert_eq!(portal_base(Some("")), Err(HostError::Unreadable));
    assert_eq!(portal_base(Some("mailto:someone@school.example")), Err(HostError::Unreadable));
    assert_eq!(portal_base(None), Err(HostError::Missing));
    assert_eq!(base_from(Some(("ftp".to_owned(), Some("h".to_owned())))), Some("ftp://h/online/".to_owned()));
    assert_eq!(base_from(Some(("ftp".to_owned(), None))), None);
    assert_eq!(base_from(None), None);
}

#[test]
fn host_errors_go_out_as_bad_request_and_server_error() {
    let shown = host_error(HostError::Missing);
    assert_eq!(shown.code, 400);
    assert_eq!(shown.body.message, "Wrong arguments");
    let wrong = shown.body.wrong.expect("a place");
    assert_eq!(wrong.api.as_deref(), Some("/v1/getLoginInfo"));
    assert_eq!(wrong.at.as_deref(), Some("Argument: host"));
    assert_eq!(wrong.trace, None);
    let shown = host_error(HostError::Unreadable);
    assert_eq!(shown.code, 500);
    assert_eq!(shown.body.message, "Our server is unreachable this time.");
    assert_eq!(shown.body.wrong.expect("a place").at.as_deref(), Some("Parsing host url"));
}

#[test]
fn headers_are_found_whatever_their_case() {
    let headers = vec![
        HeaderSetting { header: "Content-Type".to_owned(), value: "text/html".to_owned() },
        HeaderSetting { header: "Set-Cookie".to_owned(), value: "a=1".to_owned() },
        HeaderSetting { header: "set-cookie".to_owned(), value: "b=2".to_owned() },
    ];
    assert_eq!(find_header(&headers, "set-cookie"), Some("a=1".to_owned()));
    assert_eq!(find_header(&headers, "SET-COOKIE"), Some("a=1".to_owned()));
    assert_eq!(find_header(&headers, "content-type"), Some("text/html".to_owned()));
    assert_eq!(find_header(&headers, "cookie"), None);
    assert_eq!(find_header(&headers, "set_cookie"), None);
    assert_eq!(find_header(&Vec::new(), "set-cookie"), None);
}

#[test]
fn probe_of_the_portal_gives_a_handshake_credential() {
    let issued = read_probe("https://school.example/online/", probe_reply(LOGIN_PAGE), NOW, 5).expect("issued");
    assert_eq!(issued.host, "https://school.example/online/");
    assert_eq!(issued.site_key, "tok-123");
    assert_eq!(issued.cookie, "ASPSESSIONID=abc");
    assert!(!issued.need_captcha);
    assert_eq!(issued.iat, NOW);
    assert_eq!(issued.exp, NOW + 300);

    let issued =
        read_probe("https://school.example/online/", probe_reply(LOGIN_PAGE_WITH_CAPTCHA), NOW, 5).expect("issued");
    assert_eq!(issued.site_key, "tok-456");
    assert!(issued.need_captcha);
}

#[test]
fn probe_failures_are_classified() {
    let base = "https://school.example/online/";
    assert_eq!(read_probe(base, Err("connection refused".to_owned()), NOW, 5).err(), Some(ClassifiedFailure::UpstreamUnreachable));
    assert_eq!(read_probe(base, page(404, "", vec![]), NOW, 5).err(), Some(ClassifiedFailure::HostInvalid));
    assert_eq!(read_probe(base, page(500, LOGIN_PAGE, vec![("set-cookie", "a=1")]), NOW, 5).err(), Some(ClassifiedFailure::UpstreamBadStatus));
    assert_eq!(read_probe(base, page(200, LOGIN_PAGE, vec![]), NOW, 5).err(), Some(ClassifiedFailure::UpstreamUnreachable));
    assert_eq!(read_probe(base, probe_reply(OTHER_SITE), NOW, 5).err(), Some(ClassifiedFailure::HostInvalid));
    assert_eq!(read_probe(base, probe_reply("<html><body>hello</body></html>"), NOW, 5).err(), Some(ClassifiedFailure::HostInvalid));
    assert_eq!(read_probe(base, probe_reply("<html><head><meta name=\"keywords\"></head></html>"), NOW, 5).err(), Some(ClassifiedFailure::HostInvalid));
    assert_eq!(
        read_probe(base, probe_reply("<html><head><meta name=\"keywords\" content=\"欣河資訊\"></head><body></body></html>"), NOW, 5).err(),
        Some(ClassifiedFailure::HostInvalid)
    );
    assert!(read_probe(base, page(302, LOGIN_PAGE, vec![("Set-Cookie", "a=1")]), NOW, 5).is_ok());
}

#[test]
fn host_that_answers_and_is_not_the_portal_is_invalid() {
    let base = "https://school.example/online/";
    let config = Config::default();
    for html in [OTHER_SITE, "<html><body>hello</body></html>", "", "<html><head><meta name=\"keywords\"></head></html>"] {
        for headers in [vec![], vec![("set-cookie", "a=1; path=/")], vec![("content-type", "text/html")]] {
            for code in [200u16, 204, 302] {
                assert_eq!(
                    read_probe(base, page(code, html, headers.clone()), NOW, 5).err(),
                    Some(ClassifiedFailure::HostInvalid),
                    "{:?} {:?} {}",
                    html,
                    headers,
                    code
                );
            }
        }
    }
    let (state, _) = begin_discovery(Some("https://elsewhere.example/")).expect("begun");
    let (state, action) = step(state, page(200, "<html><body>hello</body></html>", vec![]), NOW, &config);
    assert!(matches!(state, HandshakeState::Done));
    let failure = failed(action);
    assert_eq!(failure, ClassifiedFailure::HostInvalid);
    assert_eq!(failure.status(), 400);
    assert_eq!(failure.message(), "This is not a valid host");
    let (state, _) = begin_discovery(Some("https://elsewhere.example/")).expect("begun");
    let (_, action) = step(state, page(404, "", vec![]), NOW, &config);
    assert_eq!(failed(action), ClassifiedFailure::HostInvalid);
}

#[test]
fn probe_facts_decide_the_credential() {
    let mark = Some(vec![Some("欣河資訊".to_owned()), Some("other".to_owned())]);
    let token = Some(vec![Some("tok".to_owned())]);
    let none: Option<Vec<Vec<String>>> = Some(Vec::new());
    let issued = decide_probe("b", Some("c=1; path=/".to_owned()), &mark, &token, &none, 10, 1).expect("issued");
    assert_eq!(issued.cookie, "c=1");
    assert_eq!(issued.exp, 70);
    assert!(!issued.need_captcha);
    let some = Some(vec![Vec::new()]);
    assert!(decide_probe("b", Some("c=1".to_owned()), &mark, &token, &some, 10, 1).expect("issued").need_captcha);
    assert!(!decide_probe("b", Some("c=1".to_owned()), &mark, &token, &None, 10, 1).expect("issued").need_captcha);
    assert_eq!(decide_probe("b", None, &mark, &token, &none, 10, 1).err(), Some(ClassifiedFailure::UpstreamUnreachable));
    assert_eq!(decide_probe("b", None, &None, &token, &none, 10, 1).err(), Some(ClassifiedFailure::HostInvalid));
    assert_eq!(decide_probe("b", None, &Some(Vec::new()), &None, &none, 10, 1).err(), Some(ClassifiedFailure::HostInvalid));
    let other = Some(vec![Some("other".to_owned())]);
    assert_eq!(decide_probe("b", None, &other, &token, &none, 10, 1).err(), Some(ClassifiedFailure::HostInvalid));
    assert_eq!(decide_probe("b", None, &mark, &None, &none, 10, 1).err(), Some(ClassifiedFailure::UpstreamUnreachable));
    let second = Some(vec![Some("other".to_owned()), Some("欣河資訊".to_owned())]);
    assert_eq!(decide_probe("b", Some("c".to_owned()), &second, &token, &none, 10, 1).err(), Some(ClassifiedFailure::HostInvalid));
    assert_eq!(decide_probe("b", Some("c".to_owned()), &None, &token, &none, 10, 1).err(), Some(ClassifiedFailure::HostInvalid));
    assert_eq!(decide_probe("b", Some("c".to_owned()), &mark, &Some(vec![None]), &none, 10, 1).err(), Some(ClassifiedFailure::HostInvalid));
    assert_eq!(decide_probe("b", Some("c".to_owned()), &mark, &Some(Vec::new()), &none, 10, 1).err(), Some(ClassifiedFailure::HostInvalid));
}

#[test]
fn login_form_has_the_fields_of_the_portal() {
    let form = login_form(&credential(), &input());
    let expected = vec![
        ("__RequestVerificationToken".to_owned(), "tok-123".to_owned()),
        ("division".to_owned(), "senior".to_owned()),
        ("Loginid".to_owned(), "s110123".to_owned()),
        ("LoginPwd".to_owned(), "p&ss word".to_owned()),
        ("Uid".to_owned(), "".to_owned()),
        ("vcode".to_owned(), "".to_owned()),
    ];
    assert_eq!(form, expected);
    let request = login_request(&credential(), &input()).expect("a request");
    assert_eq!(request.method, Method::Post);
    assert_eq!(request.url, "https://school.example/online//login.asp");
    assert_eq!(request.headers.len(), 1);
    assert_eq!(request.headers[0].header, "Cookie");
    assert_eq!(request.headers[0].value, "ASPSESSIONID=abc");
    assert_eq!(
        request.body.as_deref(),
        Some("__RequestVerificationToken=tok-123&division=senior&Loginid=s110123&LoginPwd=p%26ss+word&Uid=&vcode=")
    );
    assert!(login_request_with(&credential(), None).is_none());
    let made = login_request_with(&credential(), Some("a=b".to_owned())).expect("a request");
    assert_eq!(made.body.as_deref(), Some("a=b"));
}

#[test]
fn login_input_is_read_or_answered() {
    let read = login_input(Ok(IncomingDataWrapper::Json(input()))).expect("read");
    assert_eq!(read.username, "s110123");
    let read = login_input(Ok(IncomingDataWrapper::Form(input()))).expect("read");
    assert_eq!(read.password, "p&ss word");
    let shown = login_input(Err(IncomingError::MissingArguments(vec!["username".to_owned(), "vcode".to_owned()]))).expect_err("an error");
    assert_eq!(shown.code, 400);
    assert_eq!(shown.body.message, "Argument is not satisfied");
    let wrong = shown.body.wrong.expect("a place");
    assert_eq!(wrong.api.as_deref(), Some("/v1/login"));
    assert_eq!(wrong.at.as_deref(), Some("Argument: username, vcode"));
    let shown = login_input(Err(IncomingError::MissingArguments(vec!["password".to_owned()]))).expect_err("an error");
    assert_eq!(shown.body.wrong.expect("a place").at.as_deref(), Some("Argument: password"));
    let shown = login_input(Err(IncomingError::MissingArguments(Vec::new()))).expect_err("an error");
    assert_eq!(shown.body.wrong.expect("a place").at.as_deref(), Some("Argument: "));
    let shown = login_input(Err(IncomingError::InvalidMediaType)).expect_err("an error");
    assert_eq!(shown.code, 400);
    assert_eq!(shown.body.message, "Content-Type is not provided");
    assert_eq!(shown.body.wrong.expect("a place").at.as_deref(), Some("Header: Content-Type"));
}

#[test]
fn only_a_redirection_is_a_login() {
    assert_eq!(read_login(&page(302, "", vec![])), None);
    assert_eq!(read_login(&page(301, LOGIN_PAGE, vec![])), None);
    assert_eq!(read_login(&page(200, LOGIN_PAGE, vec![])), Some(ClassifiedFailure::LoginRejected));
    assert_eq!(read_login(&page(200, "<html>welcome</html>", vec![])), Some(ClassifiedFailure::LoginRejected));
    assert_eq!(read_login(&page(403, "", vec![])), Some(ClassifiedFailure::LoginRejected));
    assert_eq!(read_login(&page(500, "", vec![])), Some(ClassifiedFailure::LoginRejected));
    assert_eq!(read_login(&Err("timeout".to_owned())), Some(ClassifiedFailure::UpstreamUnreachable));
}

#[test]
fn class_is_read_from_the_first_cell() {
    assert_eq!(fetch_class(page(200, CLASS_PAGE, vec![])), Ok("一年一班".to_owned()));
    assert_eq!(fetch_class(page(200, "<p>no table</p>", vec![])), Err(FetchError::FetchFailed));
    assert_eq!(fetch_class(page(500, CLASS_PAGE, vec![])), Err(FetchError::FetchFailed));
    assert_eq!(fetch_class(Err("down".to_owned())), Err(FetchError::FetchFailed));
    assert_eq!(class_from(&Some(vec![vec!["no mark".to_owned()]])), Ok("".to_owned()));
    assert_eq!(class_from(&Some(vec![vec!["a ï¼š b".to_owned(), " c\nd".to_owned()]])), Ok("bc".to_owned()));
    assert_eq!(class_from(&Some(vec![vec!["xï¼š1ï¼š2".to_owned()], vec!["yï¼š3".to_owned()]])), Ok("1".to_owned()));
    assert_eq!(class_from(&Some(Vec::new())), Err(FetchError::FetchFailed));
    assert_eq!(class_from(&None), Err(FetchError::FetchFailed));
}

#[test]
fn class_is_what_the_chain_of_std_gives() {
    for text in ["班級ï¼š一年一班\n座號ï¼š07", " a ï¼š b \n c", "ï¼š", "xï¼š\n\n\ny\nz", "none", "", "aï¼šb", "\n\n\nï¼š \n"] {
        let expected = text
            .replace(" ", "")
            .replace("\n\n\n", "")
            .split("ï¼š")
            .nth(1)
            .unwrap_or("")
            .split_terminator("\n")
            .nth(0)
            .unwrap_or("")
            .to_owned();
        assert_eq!(class_from(&Some(vec![vec![text.to_owned()]])), Ok(expected), "{:?}", text);
    }
}

#[test]
fn user_is_read_from_four_cells() {
    let user = fetch_user(page(200, USER_PAGE, vec![])).expect("a user");
    assert_eq!(user.class_number, "07");
    assert_eq!(user.school_number, "110123");
    assert_eq!(user.user_name, "王小明");
    assert_eq!(user.gender, "女");
    assert_eq!(fetch_user(page(200, "<table><tr id=\"authirty1\"><td>1</td><td>2</td><td>3</td></tr></table>", vec![])).err(), Some(FetchError::FetchFailed));
    assert_eq!(fetch_user(page(404, USER_PAGE, vec![])).err(), Some(FetchError::FetchFailed));
    assert_eq!(fetch_user(Err("down".to_owned())).err(), Some(FetchError::FetchFailed));
    assert_eq!(user_from(&None).err(), Some(FetchError::FetchFailed));
    let cells = Some(vec![vec!["a".to_owned(), " b".to_owned()], vec![], vec!["c\n".to_owned()], vec!["d".to_owned()]]);
    let user = user_from(&cells).expect("a user");
    assert_eq!(user.class_number, "ab");
    assert_eq!(user.school_number, "");
    assert_eq!(user.user_name, "c");
    assert_eq!(user.gender, "d");
}

#[test]
fn profile_is_whole_or_none() {
    let user = || fetch_user(page(200, USER_PAGE, vec![]));
    let profile = get_info_from_web(Ok("一年一班".to_owned()), user()).expect("a profile");
    assert_eq!(profile.className, "一年一班");
    assert_eq!(profile.classNumber, "07");
    assert_eq!(profile.schoolNumber, "110123");
    assert_eq!(profile.userName, "王小明");
    assert_eq!(profile.gender, "女");
    assert_eq!(get_info_from_web(Err(FetchError::FetchFailed), user()).err(), Some(FetchError::AuthError));
    assert_eq!(get_info_from_web(Ok("x".to_owned()), Err(FetchError::FetchFailed)).err(), Some(FetchError::AuthError));
    assert_eq!(get_info_from_web(Err(FetchError::FetchFailed), Err(FetchError::FetchFailed)).err(), Some(FetchError::AuthError));
}

#[test]
fn discovery_runs_from_probe_to_credential() {
    let (state, action) = begin_discovery(Some("https://school.example/whatever")).expect("begun");
    let request = sent(action);
    assert_eq!(request.method, Method::Get);
    assert_eq!(request.url, "https://school.example/online/");
    assert!(request.headers.is_empty());
    assert!(request.body.is_none());
    let (state, action) = step(state, probe_reply(LOGIN_PAGE_WITH_CAPTCHA), NOW, &Config::default());
    assert!(matches!(state, HandshakeState::Done));
    match action {
        HandshakeAction::IssueHandshake(issued) => {
            assert_eq!(issued.host, "https://school.example/online/");
            assert!(issued.need_captcha);
            assert_eq!(issued.exp, NOW + 5 * 60);
        }
        other => panic!("not issued: {:?}", other),
    }
    assert_eq!(begin_discovery(None).err(), Some(HostError::Missing));
    assert_eq!(begin_discovery(Some("nothing")).err(), Some(HostError::Unreadable));

    let (state, _) = begin_discovery(Some("https://school.example/")).expect("begun");
    let (state, action) = step(state, probe_reply(OTHER_SITE), NOW, &Config::default());
    assert!(matches!(state, HandshakeState::Done));
    assert_eq!(failed(action), ClassifiedFailure::HostInvalid);
}

#[test]
fn login_runs_through_binding_to_a_session() {
    let config = Config::default();
    let (state, action) = begin_login(credential(), &input());
    let request = sent(action);
    assert_eq!(request.method, Method::Post);
    assert_eq!(request.url, "https://school.example/online//login.asp");

    let (state, action) = step(state, page(302, "", vec![("location", "/online/student/frames.asp")]), NOW + 1, &config);
    assert!(matches!(state, HandshakeState::BindingClass { .. }));
    let request = sent(action);
    assert_eq!(request.method, Method::Get);
    assert_eq!(request.url, format!("https://school.example/online/{}", APIPaths::ClassData.path()));
    assert_eq!(request.headers[0].value, "ASPSESSIONID=abc");

    let (state, action) = step(state, page(200, CLASS_PAGE, vec![]), NOW + 2, &config);
    assert!(matches!(state, HandshakeState::BindingUser { .. }));
    let request = sent(action);
    assert_eq!(request.url, format!("https://school.example/online/{}", APIPaths::ProfileShort.path()));
    assert_eq!(request.headers[0].header, "Cookie");
    assert_eq!(request.headers[0].value, "ASPSESSIONID=abc");

    let (state, action) = step(state, page(200, USER_PAGE, vec![]), NOW + 3, &config);
    assert!(matches!(state, HandshakeState::Done));
    let session = match action {
        HandshakeAction::IssueSession(session) => session,
        other => panic!("not issued: {:?}", other),
    };
    assert_eq!(session.host, "https://school.example/online/");
    assert_eq!(session.cookie, "ASPSESSIONID=abc");
    assert_eq!(session.user_data.className, "一年一班");
    assert_eq!(session.user_data.userName, "王小明");
    assert_eq!(session.user_data.classNumber, "07");
    assert_eq!(session.user_data.schoolNumber, "110123");
    assert_eq!(session.user_data.gender, "女");
    assert_eq!(session.iat, NOW + 3);
    assert_eq!(session.exp, NOW + 3 + 60 * 60);

    let key = KeyPair::generate(SigningAlgorithm::RS256).expect("a key pair");
    let token = sign(&key, &session).expect("a token");
    let back: AuthToken = verify(&key, &token, NOW + 4).expect("accepted");
    assert_eq!(back.user_data.userName, "王小明");

    let (state, action) = step(state, page(200, USER_PAGE, vec![]), NOW + 5, &config);
    assert!(matches!(state, HandshakeState::Done));
    assert_eq!(failed(action), ClassifiedFailure::LoginRejected);
}

#[test]
fn login_page_in_reply_is_a_rejected_login() {
    let (state, _) = begin_login(credential(), &input());
    let (state, action) = step(state, page(200, LOGIN_PAGE, vec![]), NOW, &Config::default());
    assert!(matches!(state, HandshakeState::Done));
    assert_eq!(failed(action), ClassifiedFailure::LoginRejected);

    let (state, _) = begin_login(credential(), &input());
    let (_, action) = step(state, Err("reset".to_owned()), NOW, &Config::default());
    assert_eq!(failed(action), ClassifiedFailure::UpstreamUnreachable);
}

#[test]
fn partial_profile_is_a_rejected_login() {
    let config = Config::default();
    let (state, _) = begin_login(credential(), &input());
    let (state, _) = step(state, page(302, "", vec![]), NOW, &config);
    let (state, action) = step(state, page(200, "<p>nothing</p>", vec![]), NOW, &config);
    assert!(matches!(state, HandshakeState::Done));
    assert_eq!(failed(action), ClassifiedFailure::LoginRejected);

    let (state, _) = begin_login(credential(), &input());
    let (state, _) = step(state, page(302, "", vec![]), NOW, &config);
    let (state, _) = step(state, page(200, CLASS_PAGE, vec![]), NOW, &config);
    let (state, action) = step(state, page(500, USER_PAGE, vec![]), NOW, &config);
    assert!(matches!(state, HandshakeState::Done));
    assert_eq!(failed(action), ClassifiedFailure::LoginRejected);

    let (state, _) = begin_login(credential(), &input());
    let (state, _) = step(state, page(302, "", vec![]), NOW, &config);
    let (_, action) = step(state, Err("down".to_owned()), NOW, &config);
    assert_eq!(failed(action), ClassifiedFailure::LoginRejected);
}

#[test]
fn relay_goes_to_the_host_of_the_credential() {
    let profile = UserProfileShortValue {
        className: "c".to_owned(),
        classNumber: "1".to_owned(),
        gender: "g".to_owned(),
        schoolNumber: "2".to_owned(),
        userName: "u".to_owned(),
    };
    let first = AuthToken { host: "https://a.example/online".to_owned(), cookie: "A=1".to_owned(), user_data: profile.clone(), iat: NOW, exp: NOW + 1 };
    let second = AuthToken { host: "https://b.example/online".to_owned(), cookie: "B=2".to_owned(), user_data: profile, iat: NOW, exp: NOW + 1 };
    let one = relay_request(&first, APIPaths::Lack);
    let two = relay_request(&second, APIPaths::Lack);
    assert_eq!(one.method, Method::Get);
    assert_eq!(one.url, "https://a.example/online/selection_student/absentation_skip_school.asp");
    assert_eq!(two.url, "https://b.example/online/selection_student/absentation_skip_school.asp");
    assert!(one.url.starts_with(&first.host));
    assert!(!one.url.starts_with(&second.host));
    assert_eq!(one.headers.len(), 1);
    assert_eq!(one.headers[0].value, "A=1");
    assert_eq!(two.headers[0].value, "B=2");
    assert!(one.body.is_none());
    let plain = page_request("http://h", "c=1", APIPaths::Home);
    assert_eq!(plain.url, "http://h/");
}

#[test]
fn session_health_fails_open() {
    assert!(!is_document_logined(LOGGED_OUT));
    assert!(is_document_logined("<html><body><p>未登入</p></body></html>"));
    assert!(is_document_logined("<html><body></body></html>"));
    assert!(is_document_logined(""));
    assert!(is_document_logined("<html><body><div>welcome</div><div>未登入</div></body></html>"));
    assert!(is_document_logined("<html><body><div>尚未登入系統</div></body></html>"));
    assert!(!is_document_logined("<html><body><div><span>未登入</span></div></body></html>"));
    assert!(is_document_logined("<html><body><table><tr><td><div>未登入</div></td></tr></table></body></html>"));
    assert!(is_alive(&None));
    assert!(is_alive(&Some(Vec::new())));
    assert!(is_alive(&Some(vec![vec!["a".to_owned()], vec!["未登入".to_owned()]])));
    assert!(!is_alive(&Some(vec![vec!["a".to_owned(), "未登入".to_owned()]])));
    assert!(is_alive(&Some(vec![vec!["未登入 ".to_owned()]])));
}

#[test]
fn replies_are_settled_and_relayed() {
    assert!(settle_reply(page(200, "x", vec![])).is_ok());
    assert!(settle_reply(page(302, "x", vec![])).is_ok());
    assert!(matches!(settle_reply(page(404, "x", vec![])), Err(HTTPErrorReturn::StatusCodeError(404))));
    assert!(matches!(settle_reply(Err("down".to_owned())), Err(HTTPErrorReturn::RequestError(reason)) if reason == "down"));

    let read = read_relay(page(200, "<html><body><div>scores</div></body></html>", vec![])).expect("a page");
    assert_eq!(read.code, 200);
    assert_eq!(read_relay(page(200, LOGGED_OUT, vec![])).err(), Some(ClassifiedFailure::SessionExpiredUpstream));
    assert_eq!(read_relay(page(302, "", vec![])).err(), Some(ClassifiedFailure::SessionExpiredUpstream));
    assert_eq!(read_relay(page(500, "", vec![])).err(), Some(ClassifiedFailure::UpstreamBadStatus));
    assert_eq!(read_relay(Err("down".to_owned())).err(), Some(ClassifiedFailure::UpstreamUnreachable));
}

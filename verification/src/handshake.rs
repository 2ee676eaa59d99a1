//! The login handshake in three phases: the discovery of the portal, the
//! login under the credential of the discovery, and the binding of the
//! user's profile to the session. The broker keeps nothing between the
//! phases: what the next phase needs travels in the credential.

use crate::credential::{sign, ClaimShape, HandshakeView, ProfileView, SessionView};
use crate::secure::{signed_token, KeyPair, SignError};
use crate::error::{ClassifiedFailure, FetchError, HTTPError};
use crate::html::{
    any_selected, element_view, elements_view, first_value, found_texts, found_values,
    join_texts, joined, select_attribute, select_texts, selected_attribute, selected_texts,
    values_view,
};
use crate::http::{APIPaths, HTMLRespond, HTTPErrorReturn, HeaderSetting};
use crate::relay::{page_request, request_is, settle_reply, settled, Method, UpstreamRequest};
use crate::request_handler::{IncomingDataWrapper, IncomingError};
use crate::text::{
    after_first, append_chars, before_first, chars_of, replace_all, replaced, same_chars,
    string_of, take_after, take_before,
};
use crate::types::{
    AuthToken, Config, ErrorReturn, Login, LoginInfo, LoginInfoAuthToken, UserProfileShortValue,
};
use crate::utils::{
    combine_page_path, create_auth_header, error_message, error_shown, pairs_view, time_after,
    time_after_from,
};
use vstd::prelude::*;

verus! {

pub const LOGIN_INFO_API: &'static str = "/v1/getLoginInfo";

pub const LOGIN_API: &'static str = "/v1/login";

/// The scheme and the host of an address as `url::Url::parse` reads them,
/// the host written as `url::Host` displays it; nothing for a text that is
/// no address.
pub uninterp spec fn parsed_address(address: Seq<char>) -> Option<(Seq<char>, Option<Seq<char>>)>;

/// The text that `serde_urlencoded::to_string` makes of a list of pairs.
pub uninterp spec fn form_encoded(pairs: Seq<(Seq<char>, Seq<char>)>) -> Option<Seq<char>>;

/// The scheme and the host of an address that was read.
pub open spec fn parts_view(parts: Option<(String, Option<String>)>) -> Option<
    (Seq<char>, Option<Seq<char>>),
> {
    match parts {
        Some((scheme, Some(host))) => Some((scheme@, Some(host@))),
        Some((scheme, None)) => Some((scheme@, None)),
        None => None,
    }
}

/// `url::Url::parse`, `url::Url::scheme` and `url::Url::host`: the scheme
/// of the address and its host, where it has one; nothing where the text is
/// no address.
#[verifier::external_body]
fn url_parts(address: &str) -> (parts: Option<(String, Option<String>)>)
    ensures
        parts_view(parts) == parsed_address(address@),
{
    let url = url::Url::parse(address).ok()?;
    Some((url.scheme().to_owned(), url.host().map(|host| host.to_string())))
}

/// `serde_urlencoded::to_string`: the pairs as the body of a form, in their
/// order.
#[verifier::external_body]
fn form_encode(pairs: &Vec<(String, String)>) -> (body: Option<String>)
    ensures
        crate::relay::text_view(body) == form_encoded(pairs_view(*pairs)),
{
    serde_urlencoded::to_string(pairs).ok()
}

/// Why phase one did not start.
#[derive(Clone, Copy, Debug, PartialEq, Eq, Structural)]
pub enum HostError {
    /// No host was named.
    Missing,
    /// What was named is no address with a host.
    Unreadable,
}

/// The base address of the portal on a host: the scheme and the host of
/// the address, and the directory of the portal. The port, the path and
/// what follows them are dropped.
pub open spec fn base_of(parts: Option<(Seq<char>, Option<Seq<char>>)>) -> Option<Seq<char>> {
    match parts {
        Some((scheme, Some(host))) => Some(scheme + "://"@ + host + "/online/"@),
        _ => None,
    }
}

/// The base address of the portal, from the parts of the address that a
/// client named.
pub fn base_from(parts: Option<(String, Option<String>)>) -> (base: Option<String>)
    ensures
        crate::relay::text_view(base) == base_of(parts_view(parts)),
{
    match parts {
        Some((scheme, Some(host))) => {
            let mut base = chars_of(scheme.as_str());
            append_chars(&mut base, &chars_of("://"));
            append_chars(&mut base, &chars_of(host.as_str()));
            append_chars(&mut base, &chars_of("/online/"));
            Some(string_of(&base))
        },
        _ => None,
    }
}

/// The base address of the portal on the host that a client names.
pub fn portal_base(host: Option<&str>) -> (base: Result<String, HostError>)
    ensures
        match host {
            None => base matches Err(HostError::Missing),
            Some(named) => match base_of(parsed_address(named@)) {
                Some(address) => base matches Ok(text) && text@ == address,
                None => base matches Err(HostError::Unreadable),
            },
        },
{
    match host {
        None => Err(HostError::Missing),
        Some(named) => match base_from(url_parts(named)) {
            Some(text) => Ok(text),
            None => Err(HostError::Unreadable),
        },
    }
}

/// The outgoing error for a host that phase one could not start with.
pub fn host_error(error: HostError) -> (shown: ErrorReturn)
    ensures
        match error {
            HostError::Missing => error_shown(
                shown,
                LOGIN_INFO_API@,
                400,
                "Wrong arguments"@,
                Some("Argument: host"@),
            ),
            HostError::Unreadable => error_shown(
                shown,
                LOGIN_INFO_API@,
                500,
                HTTPError::ServerError.message_text(),
                Some("Parsing host url"@),
            ),
        },
{
    match error {
        HostError::Missing => error_message(
            LOGIN_INFO_API,
            400,
            "Wrong arguments",
            Some("Argument: host"),
        ),
        HostError::Unreadable => error_message(
            LOGIN_INFO_API,
            500,
            HTTPError::ServerError.message(),
            Some("Parsing host url"),
        ),
    }
}

/// A letter of ASCII as a small letter, any other character as it is.
pub open spec fn small(c: char) -> char {
    if 0x41 <= c as u32 <= 0x5a {
        ((c as u32 + 0x20) as u8) as char
    } else {
        c
    }
}

/// Two header names are the same where they differ at most in the case of
/// their ASCII letters.
pub open spec fn same_name(one: Seq<char>, other: Seq<char>) -> bool {
    one.map_values(|c: char| small(c)) == other.map_values(|c: char| small(c))
}

fn small_char(c: char) -> (lowered: char)
    ensures
        lowered == small(c),
{
    let n: u32 = c as u32;
    if 0x41 <= n && n <= 0x5a {
        ((n + 0x20) as u8) as char
    } else {
        c
    }
}

fn names_match(one: &Vec<char>, other: &Vec<char>) -> (same: bool)
    ensures
        same == same_name(one@, other@),
{
    let ghost left = one@.map_values(|c: char| small(c));
    let ghost right = other@.map_values(|c: char| small(c));
    if one.len() != other.len() {
        assert(left.len() != right.len());
        return false;
    }
    let mut i: usize = 0;
    while i < one.len()
        invariant
            i <= one.len() == other.len(),
            left == one@.map_values(|c: char| small(c)),
            right == other@.map_values(|c: char| small(c)),
            forall|j: int| 0 <= j < i ==> left[j] == right[j],
        decreases one.len() - i,
    {
        if small_char(one[i]) != small_char(other[i]) {
            assert(left[i as int] != right[i as int]);
            return false;
        }
        i += 1;
    }
    assert(left =~= right);
    true
}

/// The value of the first header of that name.
pub open spec fn header_value(headers: Seq<HeaderSetting>, name: Seq<char>) -> Option<Seq<char>>
    decreases headers.len(),
{
    if headers.len() == 0 {
        None
    } else if same_name(headers[0].header@, name) {
        Some(headers[0].value@)
    } else {
        header_value(headers.drop_first(), name)
    }
}

/// Looks a header up by its name.
pub fn find_header(headers: &Vec<HeaderSetting>, name: &str) -> (value: Option<String>)
    ensures
        crate::relay::text_view(value) == header_value(headers@, name@),
{
    let wanted = chars_of(name);
    let mut i: usize = 0;
    assert(headers@.skip(0) == headers@);
    while i < headers.len()
        invariant
            i <= headers.len(),
            wanted@ == name@,
            header_value(headers@, name@) == header_value(headers@.skip(i as int), name@),
        decreases headers.len() - i,
    {
        assert(headers@.skip(i as int).drop_first() == headers@.skip(i + 1));
        if names_match(&chars_of(headers[i].header.as_str()), &wanted) {
            return Some(headers[i].value.clone());
        }
        i += 1;
    }
    None
}

/// What phase one makes of the page that the probe brought.
///
/// `set_cookie` is the `Set-Cookie` header of the reply, `fingerprint` the
/// `content` of the page's `meta` elements named `keywords`, `token` the
/// `value` of its `input` elements named `__RequestVerificationToken`, and
/// `captcha` what its `img` elements with the id `imgvcode` hold.
///
/// The fingerprint is looked at first: a page whose first fingerprint is not
/// that of the portal's maker is not the portal, with or without a cookie.
/// The portal without a cookie cannot be talked to, and the portal's page
/// without a login token is not its login page. Any other page gives a
/// handshake credential for the base address, with the cookie itself out of
/// the header, the token, and whether a captcha is shown. It is issued at
/// `now` and lives `minutes` minutes.
pub open spec fn probe_facts(
    base: Seq<char>,
    set_cookie: Option<Seq<char>>,
    fingerprint: Option<Seq<Option<Seq<char>>>>,
    token: Option<Seq<Option<Seq<char>>>>,
    captcha: Option<Seq<Seq<Seq<char>>>>,
    now: u64,
    minutes: u64,
) -> Result<HandshakeView, ClassifiedFailure> {
    if first_value(fingerprint) != Some("欣河資訊"@) {
        Err(ClassifiedFailure::HostInvalid)
    } else {
        match set_cookie {
            None => Err(ClassifiedFailure::UpstreamUnreachable),
            Some(header) => match first_value(token) {
                None => Err(ClassifiedFailure::HostInvalid),
                Some(site_key) => Ok(
                    HandshakeView {
                        host: base,
                        site_key,
                        cookie: before_first(header, "; "@),
                        need_captcha: any_selected(captcha),
                        iat: now,
                        exp: time_after(now, minutes),
                    },
                ),
            },
        }
    }
}

/// Makes the handshake credential of a probed page, or names the failure.
pub fn decide_probe(
    base: &str,
    set_cookie: Option<String>,
    fingerprint: &Option<Vec<Option<String>>>,
    token: &Option<Vec<Option<String>>>,
    captcha: &Option<Vec<Vec<String>>>,
    now: u64,
    minutes: u64,
) -> (decided: Result<LoginInfoAuthToken, ClassifiedFailure>)
    ensures
        match decided {
            Ok(credential) => probe_facts(
                base@,
                crate::relay::text_view(set_cookie),
                found_values(*fingerprint),
                found_values(*token),
                found_texts(*captcha),
                now,
                minutes,
            ) matches Ok(value) && value == credential@,
            Err(failure) => probe_facts(
                base@,
                crate::relay::text_view(set_cookie),
                found_values(*fingerprint),
                found_values(*token),
                found_texts(*captcha),
                now,
                minutes,
            ) matches Err(refusal) && refusal == failure,
        },
{
    let marked = match fingerprint {
        Some(values) => {
            if values.len() > 0 {
                assert(values_view(*values)[0] == match values@[0] {
                    Some(text) => Some(text@),
                    None => None,
                });
                match &values[0] {
                    Some(content) => same_chars(&chars_of(content.as_str()), &chars_of("欣河資訊")),
                    None => false,
                }
            } else {
                false
            }
        },
        None => false,
    };
    if !marked {
        return Err(ClassifiedFailure::HostInvalid);
    }
    let header = match set_cookie {
        Some(header) => header,
        None => return Err(ClassifiedFailure::UpstreamUnreachable),
    };
    let site_key = match token {
        Some(values) => {
            if values.len() > 0 {
                assert(values_view(*values)[0] == match values@[0] {
                    Some(text) => Some(text@),
                    None => None,
                });
                match &values[0] {
                    Some(value) => value.clone(),
                    None => return Err(ClassifiedFailure::HostInvalid),
                }
            } else {
                return Err(ClassifiedFailure::HostInvalid);
            }
        },
        None => return Err(ClassifiedFailure::HostInvalid),
    };
    let need_captcha = match captcha {
        Some(elements) => elements.len() > 0,
        None => false,
    };
    let cookie = string_of(&take_before(&chars_of(header.as_str()), &chars_of("; ")));
    Ok(
        LoginInfoAuthToken {
            host: base.to_owned(),
            site_key,
            cookie,
            need_captcha,
            iat: now,
            exp: time_after_from(now, minutes),
        },
    )
}

/// What phase one makes of the reply to its probe.
///
/// A probe that did not get through makes the portal unreachable. A reply
/// of "not found" means that the host is not the portal, and any other
/// status that is neither a success nor a redirection is a bad status. A
/// page is judged by `probe_facts`.
pub open spec fn probe_verdict(base: Seq<char>, raw: Result<HTMLRespond, String>, now: u64, minutes: u64) -> Result<
    HandshakeView,
    ClassifiedFailure,
> {
    match settled(raw) {
        Err(HTTPErrorReturn::RequestError(_)) => Err(ClassifiedFailure::UpstreamUnreachable),
        Err(HTTPErrorReturn::StatusCodeError(code)) => if code == 404 {
            Err(ClassifiedFailure::HostInvalid)
        } else {
            Err(ClassifiedFailure::UpstreamBadStatus)
        },
        Ok(page) => probe_facts(
            base,
            header_value(page.header@, "set-cookie"@),
            selected_attribute(page.html@, "meta[name=keywords]"@, "content"@),
            selected_attribute(page.html@, "input[name=__RequestVerificationToken]"@, "value"@),
            selected_texts(page.html@, "img#imgvcode"@),
            now,
            minutes,
        ),
    }
}

/// Whether a reply comes from a host that answers and is not the portal: a
/// reply of "not found", or a page whose first fingerprint is not that of
/// the portal's maker.
pub open spec fn foreign_host(raw: Result<HTMLRespond, String>) -> bool {
    match settled(raw) {
        Err(HTTPErrorReturn::RequestError(_)) => false,
        Err(HTTPErrorReturn::StatusCodeError(code)) => code == 404,
        Ok(page) => first_value(
            selected_attribute(page.html@, "meta[name=keywords]"@, "content"@),
        ) != Some("欣河資訊"@),
    }
}

/// A host that answers and is not the portal is an invalid host, whatever
/// else its reply holds: no cookie and no login token make it anything
/// else, and no credential is issued for it. A host is unreachable only
/// where the probe did not get through, or where the portal itself sets no
/// cookie.
pub proof fn lemma_foreign_host_is_invalid(
    base: Seq<char>,
    raw: Result<HTMLRespond, String>,
    now: u64,
    minutes: u64,
)
    ensures
        foreign_host(raw) ==> probe_verdict(base, raw, now, minutes) == Err::<
            HandshakeView,
            ClassifiedFailure,
        >(ClassifiedFailure::HostInvalid),
        probe_verdict(base, raw, now, minutes) == Err::<HandshakeView, ClassifiedFailure>(
            ClassifiedFailure::UpstreamUnreachable,
        ) ==> raw is Err || (settled(raw) matches Ok(page) && !foreign_host(raw) && header_value(
            page.header@,
            "set-cookie"@,
        ) is None),
{
}

/// Reads the reply to the probe of phase one.
pub fn read_probe(base: &str, raw: Result<HTMLRespond, String>, now: u64, minutes: u64) -> (decided:
    Result<LoginInfoAuthToken, ClassifiedFailure>)
    ensures
        match decided {
            Ok(credential) => probe_verdict(base@, raw, now, minutes) matches Ok(value) && value
                == credential@,
            Err(failure) => probe_verdict(base@, raw, now, minutes) matches Err(refusal)
                && refusal == failure,
        },
{
    match settle_reply(raw) {
        Err(HTTPErrorReturn::RequestError(_)) => Err(ClassifiedFailure::UpstreamUnreachable),
        Err(HTTPErrorReturn::StatusCodeError(code)) => {
            if code == 404 {
                Err(ClassifiedFailure::HostInvalid)
            } else {
                Err(ClassifiedFailure::UpstreamBadStatus)
            }
        },
        Ok(page) => {
            let set_cookie = find_header(&page.header, "set-cookie");
            let fingerprint = select_attribute(page.html.as_str(), "meta[name=keywords]", "content");
            let token = select_attribute(
                page.html.as_str(),
                "input[name=__RequestVerificationToken]",
                "value",
            );
            let captcha = select_texts(page.html.as_str(), "img#imgvcode");
            decide_probe(base, set_cookie, &fingerprint, &token, &captcha, now, minutes)
        },
    }
}

/// What a client sends to log in.
#[derive(Debug)]
pub struct IncomingData {
    pub username: String,
    pub password: String,
    pub vcode: String,
}

/// The outgoing error for a login whose body could not be read.
pub open spec fn input_error_shown(shown: ErrorReturn, error: IncomingError) -> bool {
    match error {
        IncomingError::MissingArguments(names) => {
            &&& shown.code == 400
            &&& shown.body.message@ == "Argument is not satisfied"@
            &&& shown.body.wrong matches Some(wrong)
            &&& wrong.api matches Some(api)
            &&& api@ == LOGIN_API@
            &&& wrong.trace is None
            &&& wrong.at matches Some(named)
            &&& named@ == "Argument: "@ + listed(element_view(names))
        },
        IncomingError::InvalidMediaType => error_shown(
            shown,
            LOGIN_API@,
            400,
            "Content-Type is not provided"@,
            Some("Header: Content-Type"@),
        ),
    }
}

/// A list of names, with a comma and a space between each two.
pub open spec fn listed(names: Seq<Seq<char>>) -> Seq<char>
    decreases names.len(),
{
    if names.len() == 0 {
        Seq::empty()
    } else if names.len() == 1 {
        names[0]
    } else {
        listed(names.drop_last()) + ", "@ + names.last()
    }
}

fn list_names(names: &Vec<String>) -> (text: Vec<char>)
    ensures
        text@ == listed(element_view(*names)),
{
    let mut text: Vec<char> = Vec::new();
    let ghost all = element_view(*names);
    let mut i: usize = 0;
    assert(all.take(0) == Seq::<Seq<char>>::empty());
    while i < names.len()
        invariant
            i <= names.len(),
            all == element_view(*names),
            text@ == listed(all.take(i as int)),
        decreases names.len() - i,
    {
        assert(all.take(i + 1).drop_last() == all.take(i as int));
        assert(all.take(i + 1).last() == names@[i as int]@);
        if i > 0 {
            append_chars(&mut text, &chars_of(", "));
        } else {
            assert(all.take(1)[0] == names@[0]@);
        }
        append_chars(&mut text, &chars_of(names[i].as_str()));
        i += 1;
    }
    assert(all.take(names@.len() as int) == all);
    text
}

/// The body of a login request, or the error to answer with where the body
/// could not be read.
pub fn login_input(data: Result<IncomingDataWrapper<IncomingData>, IncomingError>) -> (input: Result<
    IncomingData,
    ErrorReturn,
>)
    ensures
        match data {
            Ok(wrapped) => input matches Ok(read) && read == match wrapped {
                IncomingDataWrapper::Form(inner) => inner,
                IncomingDataWrapper::Json(inner) => inner,
            },
            Err(error) => input matches Err(shown) && input_error_shown(shown, error),
        },
{
    match data {
        Ok(wrapped) => Ok(crate::request_handler::decode_incoming(wrapped)),
        Err(IncomingError::MissingArguments(names)) => {
            let mut place = chars_of("Argument: ");
            append_chars(&mut place, &list_names(&names));
            let place = string_of(&place);
            Err(error_message(LOGIN_API, 400, "Argument is not satisfied", Some(place.as_str())))
        },
        Err(IncomingError::InvalidMediaType) => Err(
            error_message(
                LOGIN_API,
                400,
                "Content-Type is not provided",
                Some("Header: Content-Type"),
            ),
        ),
    }
}

/// The fields of the portal's login form, in the order in which they are
/// sent. The token is the one that the portal gave with the session of the
/// probe.
pub open spec fn login_pairs(
    site_key: Seq<char>,
    username: Seq<char>,
    password: Seq<char>,
    vcode: Seq<char>,
) -> Seq<(Seq<char>, Seq<char>)> {
    seq![
        ("__RequestVerificationToken"@, site_key),
        ("division"@, "senior"@),
        ("Loginid"@, username),
        ("LoginPwd"@, password),
        ("Uid"@, ""@),
        ("vcode"@, vcode),
    ]
}

/// The fields of the portal's login form for a client.
pub fn login_form(credential: &LoginInfoAuthToken, data: &IncomingData) -> (form: Vec<(String, String)>)
    ensures
        pairs_view(form) == login_pairs(
            credential@.site_key,
            data.username@,
            data.password@,
            data.vcode@,
        ),
{
    let mut form: Vec<(String, String)> = Vec::new();
    form.push(("__RequestVerificationToken".to_owned(), credential.site_key.clone()));
    form.push(("division".to_owned(), "senior".to_owned()));
    form.push(("Loginid".to_owned(), data.username.clone()));
    form.push(("LoginPwd".to_owned(), data.password.clone()));
    form.push(("Uid".to_owned(), "".to_owned()));
    form.push(("vcode".to_owned(), data.vcode.clone()));
    assert(pairs_view(form) =~= login_pairs(
        credential@.site_key,
        data.username@,
        data.password@,
        data.vcode@,
    ));
    form
}

/// The login request of phase two, given the form as the body that it was
/// encoded to: a `Post` to the login page of the host in the credential,
/// under the cookie in the credential.
pub fn login_request_with(credential: &LoginInfoAuthToken, body: Option<String>) -> (request: Option<
    UpstreamRequest,
>)
    ensures
        match body {
            Some(encoded) => request matches Some(made) && request_is(
                made,
                Method::Post,
                credential@.host + APIPaths::Login.path_text(),
                Some(credential@.cookie),
                Some(encoded@),
            ),
            None => request is None,
        },
{
    match body {
        Some(encoded) => {
            let mut headers: Vec<HeaderSetting> = Vec::new();
            headers.push(create_auth_header(credential.cookie.as_str()));
            Some(
                UpstreamRequest {
                    method: Method::Post,
                    url: combine_page_path(credential.host.as_str(), APIPaths::Login),
                    headers,
                    body: Some(encoded),
                },
            )
        },
        None => None,
    }
}

/// The login request of phase two; nothing where the form cannot be
/// encoded.
pub fn login_request(credential: &LoginInfoAuthToken, data: &IncomingData) -> (request: Option<
    UpstreamRequest,
>)
    ensures
        match form_encoded(
            login_pairs(credential@.site_key, data.username@, data.password@, data.vcode@),
        ) {
            Some(encoded) => request matches Some(made) && request_is(
                made,
                Method::Post,
                credential@.host + APIPaths::Login.path_text(),
                Some(credential@.cookie),
                Some(encoded),
            ),
            None => request is None,
        },
{
    let form = login_form(credential, data);
    login_request_with(credential, form_encode(&form))
}

/// What phase two makes of the reply to the login: nothing stands in the
/// way of phase three where the portal redirects, and only there. A login
/// that did not get through makes the portal unreachable. Any other reply
/// is a refusal, whatever page it carries.
pub open spec fn login_verdict(raw: Result<HTMLRespond, String>) -> Option<ClassifiedFailure> {
    match raw {
        Err(_) => Some(ClassifiedFailure::UpstreamUnreachable),
        Ok(page) => if crate::http::redirection_status(page.code) {
            None
        } else {
            Some(ClassifiedFailure::LoginRejected)
        },
    }
}

/// Reads the reply to the login of phase two.
pub fn read_login(raw: &Result<HTMLRespond, String>) -> (failure: Option<ClassifiedFailure>)
    ensures
        failure == login_verdict(*raw),
{
    match raw {
        Err(_) => Some(ClassifiedFailure::UpstreamUnreachable),
        Ok(page) => {
            if crate::http::is_redirection(page.code) {
                None
            } else {
                Some(ClassifiedFailure::LoginRejected)
            }
        },
    }
}

/// The name of the class in the text of the class page's first cell: with
/// the spaces and the runs of three line breaks taken out, what stands
/// between the first and the second "ï¼š", up to the first line break.
pub open spec fn class_name_of(text: Seq<char>) -> Seq<char> {
    let squeezed = replaced(replaced(text, " "@, ""@), "\n\n\n"@, ""@);
    let named = match after_first(squeezed, "ï¼š"@) {
        Some(rest) => before_first(rest, "ï¼š"@),
        None => ""@,
    };
    before_first(named, "\n"@)
}

/// The class of the user, from the cells of the class page. A page without
/// a cell gives none.
pub open spec fn class_verdict(found: Option<Seq<Seq<Seq<char>>>>) -> Result<Seq<char>, FetchError> {
    match found {
        Some(cells) => if cells.len() > 0 {
            Ok(class_name_of(joined(cells[0])))
        } else {
            Err(FetchError::FetchFailed)
        },
        None => Err(FetchError::FetchFailed),
    }
}

/// Reads the class of the user from the cells of the class page.
pub fn class_from(found: &Option<Vec<Vec<String>>>) -> (class: Result<String, FetchError>)
    ensures
        match class {
            Ok(name) => class_verdict(found_texts(*found)) matches Ok(text) && text == name@,
            Err(error) => class_verdict(found_texts(*found)) matches Err(refusal) && refusal
                == error,
        },
{
    match found {
        Some(cells) => {
            if cells.len() > 0 {
                assert(elements_view(*cells)[0] == element_view(cells@[0]));
                let empty = chars_of("");
                let mark = chars_of("ï¼š");
                let text = join_texts(&cells[0]);
                let text = replace_all(&text, &chars_of(" "), &empty);
                let text = replace_all(&text, &chars_of("\n\n\n"), &empty);
                let named = match take_after(&text, &mark) {
                    Some(rest) => take_before(&rest, &mark),
                    None => empty,
                };
                Ok(string_of(&take_before(&named, &chars_of("\n"))))
            } else {
                Err(FetchError::FetchFailed)
            }
        },
        None => Err(FetchError::FetchFailed),
    }
}

/// What the portal shows of the user in the cells of the profile row.
#[derive(Debug)]
pub struct UserInfo {
    pub class_number: String,
    pub school_number: String,
    pub user_name: String,
    pub gender: String,
}

pub struct UserInfoView {
    pub class_number: Seq<char>,
    pub school_number: Seq<char>,
    pub user_name: Seq<char>,
    pub gender: Seq<char>,
}

impl View for UserInfo {
    type V = UserInfoView;

    open spec fn view(&self) -> UserInfoView {
        UserInfoView {
            class_number: self.class_number@,
            school_number: self.school_number@,
            user_name: self.user_name@,
            gender: self.gender@,
        }
    }
}

/// The text of a cell, with the spaces and the line breaks taken out.
pub open spec fn cell_text(texts: Seq<Seq<char>>) -> Seq<char> {
    replaced(replaced(joined(texts), " "@, ""@), "\n"@, ""@)
}

/// The user, from the cells of the profile row: the number in the class,
/// the number in the school, the name and the gender, in this order. A row
/// with fewer than four cells gives none.
pub open spec fn user_verdict(found: Option<Seq<Seq<Seq<char>>>>) -> Result<UserInfoView, FetchError> {
    match found {
        Some(cells) => if cells.len() >= 4 {
            Ok(
                UserInfoView {
                    class_number: cell_text(cells[0]),
                    school_number: cell_text(cells[1]),
                    user_name: cell_text(cells[2]),
                    gender: cell_text(cells[3]),
                },
            )
        } else {
            Err(FetchError::FetchFailed)
        },
        None => Err(FetchError::FetchFailed),
    }
}

fn read_cell(texts: &Vec<String>) -> (text: String)
    ensures
        text@ == cell_text(element_view(*texts)),
{
    let empty = chars_of("");
    let text = join_texts(texts);
    let text = replace_all(&text, &chars_of(" "), &empty);
    let text = replace_all(&text, &chars_of("\n"), &empty);
    string_of(&text)
}

/// Reads the user from the cells of the profile row.
pub fn user_from(found: &Option<Vec<Vec<String>>>) -> (user: Result<UserInfo, FetchError>)
    ensures
        match user {
            Ok(info) => user_verdict(found_texts(*found)) matches Ok(value) && value == info@,
            Err(error) => user_verdict(found_texts(*found)) matches Err(refusal) && refusal
                == error,
        },
{
    match found {
        Some(cells) => {
            if cells.len() >= 4 {
                assert(elements_view(*cells)[0] == element_view(cells@[0]));
                assert(elements_view(*cells)[1] == element_view(cells@[1]));
                assert(elements_view(*cells)[2] == element_view(cells@[2]));
                assert(elements_view(*cells)[3] == element_view(cells@[3]));
                Ok(
                    UserInfo {
                        class_number: read_cell(&cells[0]),
                        school_number: read_cell(&cells[1]),
                        user_name: read_cell(&cells[2]),
                        gender: read_cell(&cells[3]),
                    },
                )
            } else {
                Err(FetchError::FetchFailed)
            }
        },
        None => Err(FetchError::FetchFailed),
    }
}

/// What the class page of phase three gives: the class, where the page
/// came and has a cell.
pub open spec fn class_reply(raw: Result<HTMLRespond, String>) -> Result<Seq<char>, FetchError> {
    match settled(raw) {
        Ok(page) => class_verdict(selected_texts(page.html@, "td"@)),
        Err(_) => Err(FetchError::FetchFailed),
    }
}

/// What the profile page of phase three gives: the user, where the page
/// came and has the row.
pub open spec fn user_reply(raw: Result<HTMLRespond, String>) -> Result<UserInfoView, FetchError> {
    match settled(raw) {
        Ok(page) => user_verdict(selected_texts(page.html@, "#authirty1 > td"@)),
        Err(_) => Err(FetchError::FetchFailed),
    }
}

/// Reads the class page of phase three.
pub fn fetch_class(raw: Result<HTMLRespond, String>) -> (class: Result<String, FetchError>)
    ensures
        match class {
            Ok(name) => class_reply(raw) matches Ok(text) && text == name@,
            Err(error) => class_reply(raw) matches Err(refusal) && refusal == error,
        },
{
    match settle_reply(raw) {
        Ok(page) => class_from(&select_texts(page.html.as_str(), "td")),
        Err(_) => Err(FetchError::FetchFailed),
    }
}

/// Reads the profile page of phase three.
pub fn fetch_user(raw: Result<HTMLRespond, String>) -> (user: Result<UserInfo, FetchError>)
    ensures
        match user {
            Ok(info) => user_reply(raw) matches Ok(value) && value == info@,
            Err(error) => user_reply(raw) matches Err(refusal) && refusal == error,
        },
{
    match settle_reply(raw) {
        Ok(page) => user_from(&select_texts(page.html.as_str(), "#authirty1 > td")),
        Err(_) => Err(FetchError::FetchFailed),
    }
}

/// The profile that is bound to a session: the class and the user, where
/// both were read.
pub open spec fn profile_of(class: Seq<char>, user: UserInfoView) -> ProfileView {
    ProfileView {
        class_name: class,
        class_number: user.class_number,
        gender: user.gender,
        school_number: user.school_number,
        user_name: user.user_name,
    }
}

/// Puts the class and the user together. A profile is whole or it is none.
pub fn get_info_from_web(class: Result<String, FetchError>, user: Result<UserInfo, FetchError>) -> (profile:
    Result<UserProfileShortValue, FetchError>)
    ensures
        match (class, user) {
            (Ok(name), Ok(info)) => profile matches Ok(bound) && bound@ == profile_of(
                name@,
                info@,
            ),
            _ => profile matches Err(FetchError::AuthError),
        },
{
    match (class, user) {
        (Ok(class_data), Ok(user_data)) => Ok(
            UserProfileShortValue {
                className: class_data,
                classNumber: user_data.class_number,
                gender: user_data.gender,
                schoolNumber: user_data.school_number,
                userName: user_data.user_name,
            },
        ),
        _ => Err(FetchError::AuthError),
    }
}

/// The session credential that ends the handshake: the host and the cookie
/// of the handshake credential, and the profile. It is issued at `now` and
/// lives `minutes` minutes.
pub open spec fn session_of(handshake: HandshakeView, profile: ProfileView, now: u64, minutes: u64) -> SessionView {
    SessionView {
        host: handshake.host,
        cookie: handshake.cookie,
        user_data: profile,
        iat: now,
        exp: time_after(now, minutes),
    }
}

/// Makes the session credential of a client that has logged in.
pub fn bind_profile(credential: &LoginInfoAuthToken, profile: UserProfileShortValue, now: u64, minutes: u64) -> (session:
    AuthToken)
    ensures
        session@ == session_of(credential@, profile@, now, minutes),
{
    AuthToken {
        host: credential.host.clone(),
        cookie: credential.cookie.clone(),
        user_data: profile,
        iat: now,
        exp: time_after_from(now, minutes),
    }
}

/// Where a handshake stands.
#[derive(Debug)]
pub enum HandshakeState {
    /// Phase one: the portal at `base` was probed, and the reply is awaited.
    Discovery { base: String },
    /// Phase two: the login was sent under `credential`, and the reply is
    /// awaited.
    Login { credential: LoginInfoAuthToken },
    /// Phase three: the portal took the login and was asked for the class
    /// page.
    BindingClass { credential: LoginInfoAuthToken },
    /// Phase three: the class is known, and the portal was asked for the
    /// profile page.
    BindingUser { credential: LoginInfoAuthToken, class: String },
    /// The handshake is over.
    Done,
}

/// What is to be done next for a handshake.
#[derive(Debug)]
pub enum HandshakeAction {
    /// Send the request, and hand the reply to `step`.
    Send(UpstreamRequest),
    /// Phase one is through: sign the handshake credential and give it out.
    IssueHandshake(LoginInfoAuthToken),
    /// Phase three is through: sign the session credential and give it out.
    IssueSession(AuthToken),
    /// Answer with the failure. Nothing is tried again.
    Fail(ClassifiedFailure),
}

impl HandshakeState {
    /// The place of a state in the order of the handshake.
    pub open spec fn rank(self) -> nat {
        match self {
            HandshakeState::Discovery { .. } => 1,
            HandshakeState::Login { .. } => 2,
            HandshakeState::BindingClass { .. } => 3,
            HandshakeState::BindingUser { .. } => 4,
            HandshakeState::Done => 5,
        }
    }
}

/// Starts phase one: the probe of the portal on the host that a client
/// names. The probe carries no cookie.
pub fn begin_discovery(host: Option<&str>) -> (begun: Result<(HandshakeState, HandshakeAction), HostError>)
    ensures
        match host {
            None => begun matches Err(HostError::Missing),
            Some(named) => match base_of(parsed_address(named@)) {
                Some(address) => {
                    &&& begun matches Ok((state, action))
                    &&& state matches HandshakeState::Discovery { base }
                    &&& base@ == address
                    &&& action matches HandshakeAction::Send(request)
                    &&& request_is(request, Method::Get, address, None, None)
                },
                None => begun matches Err(HostError::Unreadable),
            },
        },
{
    match portal_base(host) {
        Ok(base) => {
            let request = UpstreamRequest {
                method: Method::Get,
                url: base.clone(),
                headers: Vec::new(),
                body: None,
            };
            Ok((HandshakeState::Discovery { base }, HandshakeAction::Send(request)))
        },
        Err(error) => Err(error),
    }
}

/// Starts phase two under a handshake credential: the login is sent with
/// the cookie and the token of the credential, to the host of the
/// credential.
pub fn begin_login(credential: LoginInfoAuthToken, data: &IncomingData) -> (begun: (
    HandshakeState,
    HandshakeAction,
))
    ensures
        match form_encoded(
            login_pairs(credential@.site_key, data.username@, data.password@, data.vcode@),
        ) {
            Some(encoded) => {
                &&& begun.0 matches HandshakeState::Login { credential: kept }
                &&& kept@ == credential@
                &&& begun.1 matches HandshakeAction::Send(request)
                &&& request_is(
                    request,
                    Method::Post,
                    credential@.host + APIPaths::Login.path_text(),
                    Some(credential@.cookie),
                    Some(encoded),
                )
            },
            None => begun.0 is Done && begun.1 matches HandshakeAction::Fail(
                ClassifiedFailure::LoginRejected,
            ),
        },
{
    match login_request(&credential, data) {
        Some(request) => (HandshakeState::Login { credential }, HandshakeAction::Send(request)),
        None => (HandshakeState::Done, HandshakeAction::Fail(ClassifiedFailure::LoginRejected)),
    }
}

/// What a handshake in `state` does with the reply `raw` at the time `now`.
///
/// In phase one the reply to the probe ends the handshake of this request:
/// with a handshake credential, or with the failure of the probe. In phase
/// two a refused login ends it, and a login that the portal took leads to
/// the request for the class page, under the same credential. In phase
/// three the class page leads to the request for the profile page, and the
/// profile page to the session credential; a page that cannot be had or
/// read ends the handshake as a refused login. A handshake that is over
/// stays over.
pub open spec fn step_is(
    state: HandshakeState,
    raw: Result<HTMLRespond, String>,
    now: u64,
    config: Config,
    next: HandshakeState,
    action: HandshakeAction,
) -> bool {
    match state {
        HandshakeState::Discovery { base } => next is Done && match probe_verdict(
            base@,
            raw,
            now,
            config.logininfo_expired as u64,
        ) {
            Ok(value) => action matches HandshakeAction::IssueHandshake(credential) && credential@
                == value,
            Err(failure) => action matches HandshakeAction::Fail(named) && named == failure,
        },
        HandshakeState::Login { credential } => match login_verdict(raw) {
            Some(failure) => {
                &&& next is Done
                &&& action matches HandshakeAction::Fail(named)
                &&& named == failure
            },
            None => {
                &&& next matches HandshakeState::BindingClass { credential: kept }
                &&& kept@ == credential@
                &&& action matches HandshakeAction::Send(request)
                &&& request_is(
                    request,
                    Method::Get,
                    credential@.host + APIPaths::ClassData.path_text(),
                    Some(credential@.cookie),
                    None,
                )
            },
        },
        HandshakeState::BindingClass { credential } => match class_reply(raw) {
            Err(_) => next is Done && action matches HandshakeAction::Fail(
                ClassifiedFailure::LoginRejected,
            ),
            Ok(name) => {
                &&& next matches HandshakeState::BindingUser { credential: kept, class }
                &&& kept@ == credential@
                &&& class@ == name
                &&& action matches HandshakeAction::Send(request)
                &&& request_is(
                    request,
                    Method::Get,
                    credential@.host + APIPaths::ProfileShort.path_text(),
                    Some(credential@.cookie),
                    None,
                )
            },
        },
        HandshakeState::BindingUser { credential, class } => next is Done && match user_reply(raw) {
            Err(_) => action matches HandshakeAction::Fail(ClassifiedFailure::LoginRejected),
            Ok(user) => action matches HandshakeAction::IssueSession(session) && session@
                == session_of(
                credential@,
                profile_of(class@, user),
                now,
                config.login_status_expired as u64,
            ),
        },
        HandshakeState::Done => next is Done && action matches HandshakeAction::Fail(
            ClassifiedFailure::LoginRejected,
        ),
    }
}

/// Takes a handshake one step further with the reply to its last request,
/// at the time `now`. No phase is skipped and none comes twice: the state
/// that follows stands later in the order of the handshake, unless the
/// handshake was over already.
pub fn step(state: HandshakeState, raw: Result<HTMLRespond, String>, now: u64, config: &Config) -> (taken: (
    HandshakeState,
    HandshakeAction,
))
    ensures
        step_is(state, raw, now, *config, taken.0, taken.1),
        taken.0 is Done || taken.0.rank() == state.rank() + 1,
        taken.1 is Send <==> !(taken.0 is Done),
{
    match state {
        HandshakeState::Discovery { base } => {
            let minutes: u64 = config.logininfo_expired as u64;
            match read_probe(base.as_str(), raw, now, minutes) {
                Ok(credential) => (
                    HandshakeState::Done,
                    HandshakeAction::IssueHandshake(credential),
                ),
                Err(failure) => (HandshakeState::Done, HandshakeAction::Fail(failure)),
            }
        },
        HandshakeState::Login { credential } => match read_login(&raw) {
            Some(failure) => (HandshakeState::Done, HandshakeAction::Fail(failure)),
            None => {
                let request = page_request(
                    credential.host.as_str(),
                    credential.cookie.as_str(),
                    APIPaths::ClassData,
                );
                (HandshakeState::BindingClass { credential }, HandshakeAction::Send(request))
            },
        },
        HandshakeState::BindingClass { credential } => match fetch_class(raw) {
            Err(_) => (
                HandshakeState::Done,
                HandshakeAction::Fail(ClassifiedFailure::LoginRejected),
            ),
            Ok(class) => {
                let request = page_request(
                    credential.host.as_str(),
                    credential.cookie.as_str(),
                    APIPaths::ProfileShort,
                );
                (
                    HandshakeState::BindingUser { credential, class },
                    HandshakeAction::Send(request),
                )
            },
        },
        HandshakeState::BindingUser { credential, class } => {
            let minutes: u64 = config.login_status_expired as u64;
            match get_info_from_web(Ok(class), fetch_user(raw)) {
                Ok(profile) => (
                    HandshakeState::Done,
                    HandshakeAction::IssueSession(bind_profile(&credential, profile, now, minutes)),
                ),
                Err(_) => (
                    HandshakeState::Done,
                    HandshakeAction::Fail(ClassifiedFailure::LoginRejected),
                ),
            }
        },
        HandshakeState::Done => (
            HandshakeState::Done,
            HandshakeAction::Fail(ClassifiedFailure::LoginRejected),
        ),
    }
}

/// What a step of the handshake issues, it issues at the end of its phase
/// and for the lifetime that is configured.
///
/// A handshake credential comes out of phase one only, and a session
/// credential out of the last half of phase three only. Each is issued at
/// the time of the step and expires its configured lifetime later. A
/// session credential names the host and holds the cookie of the handshake
/// credential that the login was made under.
pub proof fn lemma_step_issues(
    state: HandshakeState,
    raw: Result<HTMLRespond, String>,
    now: u64,
    config: Config,
    next: HandshakeState,
    action: HandshakeAction,
)
    requires
        step_is(state, raw, now, config, next, action),
    ensures
        action matches HandshakeAction::IssueHandshake(issued) ==> {
            &&& state is Discovery
            &&& issued.iat == now
            &&& issued.exp == time_after(now, config.logininfo_expired as u64)
        },
        action matches HandshakeAction::IssueSession(issued) ==> {
            &&& state matches HandshakeState::BindingUser { credential, .. }
            &&& issued.host@ == credential.host@
            &&& issued.cookie@ == credential.cookie@
            &&& issued.iat == now
            &&& issued.exp == time_after(now, config.login_status_expired as u64)
        },
        !(action is Send) ==> next is Done,
{
}

/// The answer that ends phase one: the handshake credential as the bearer
/// token that the signing library makes of it, and whether the portal asks
/// for a captcha. Where the library makes no token there is no answer.
pub fn issue_handshake(key: &KeyPair, credential: &LoginInfoAuthToken) -> (answer: Result<
    LoginInfo,
    SignError,
>)
    ensures
        match signed_token(
            <LoginInfoAuthToken as ClaimShape>::members(credential@),
            key.private_pem(),
            key.scheme(),
        ) {
            Some(token) => {
                &&& answer matches Ok(info)
                &&& info.authToken@ == token
                &&& info.need_captcha == credential.need_captcha
            },
            None => answer matches Err(SignError::Refused),
        },
{
    match sign(key, credential) {
        Ok(token) => Ok(LoginInfo { authToken: token, need_captcha: credential.need_captcha }),
        Err(error) => Err(error),
    }
}

/// The answer that ends phase three: the session credential as the bearer
/// token that the signing library makes of it, with the word that the login
/// went through. Where the library makes no token there is no answer.
pub fn issue_session(key: &KeyPair, credential: &AuthToken) -> (answer: Result<Login, SignError>)
    ensures
        match signed_token(
            <AuthToken as ClaimShape>::members(credential@),
            key.private_pem(),
            key.scheme(),
        ) {
            Some(token) => {
                &&& answer matches Ok(login)
                &&& login.authtoken@ == token
                &&& login.message@ == "Login successful!"@
            },
            None => answer matches Err(SignError::Refused),
        },
{
    match sign(key, credential) {
        Ok(token) => Ok(Login { message: "Login successful!".to_owned(), authtoken: token }),
        Err(error) => Err(error),
    }
}

} // verus!

//! What the broker sends to the portal and what it takes a reply for.

use crate::error::ClassifiedFailure;
use crate::html::selected_texts;
use crate::http::{
    check_status, is_success, redirection_status, success_status, APIPaths, HTMLRespond,
    HTTPErrorReturn, HeaderSetting,
};
use crate::credential::SessionView;
use crate::types::AuthToken;
use crate::utils::{combine_page_path, create_auth_header, is_document_logined, session_alive};
use vstd::prelude::*;

verus! {

#[derive(Clone, Copy, Debug, PartialEq, Eq, Structural)]
pub enum Method {
    Get,
    Post,
}

/// One request to the portal. Redirections are not to be followed: the
/// status of the reply is what the broker goes by.
#[derive(Debug)]
pub struct UpstreamRequest {
    pub method: Method,
    pub url: String,
    pub headers: Vec<HeaderSetting>,
    /// The form that a `Post` carries, encoded.
    pub body: Option<String>,
}

/// The text that may be there.
pub open spec fn text_view(text: Option<String>) -> Option<Seq<char>> {
    match text {
        Some(held) => Some(held@),
        None => None,
    }
}

/// A request of this method to this address, with the cookie as its only
/// header where there is one, and with this body.
pub open spec fn request_is(
    request: UpstreamRequest,
    method: Method,
    url: Seq<char>,
    cookie: Option<Seq<char>>,
    body: Option<Seq<char>>,
) -> bool {
    &&& request.method == method
    &&& request.url@ == url
    &&& text_view(request.body) == body
    &&& match cookie {
        Some(relayed) => {
            &&& request.headers@.len() == 1
            &&& request.headers@[0].header@ == "Cookie"@
            &&& request.headers@[0].value@ == relayed
        },
        None => request.headers@.len() == 0,
    }
}

/// The request for a page of the portal at `host` under a session cookie.
pub fn page_request(host: &str, cookie: &str, page: APIPaths) -> (request: UpstreamRequest)
    ensures
        request_is(request, Method::Get, host@ + page.path_text(), Some(cookie@), None),
{
    let mut headers: Vec<HeaderSetting> = Vec::new();
    headers.push(create_auth_header(cookie));
    UpstreamRequest { method: Method::Get, url: combine_page_path(host, page), headers, body: None }
}

/// The request that relays a session to the portal: it goes to the host
/// that the credential names, with the cookie that the credential holds.
pub fn relay_request(credential: &AuthToken, page: APIPaths) -> (request: UpstreamRequest)
    ensures
        request_is(
            request,
            Method::Get,
            credential@.host + page.path_text(),
            Some(credential@.cookie),
            None,
        ),
{
    page_request(credential.host.as_str(), credential.cookie.as_str(), page)
}

/// Two credentials that name different hosts never relay to the same
/// address: the address of a relayed request begins with the host of the
/// credential it was made from.
pub proof fn lemma_relay_keeps_host(first: SessionView, second: SessionView, page: APIPaths)
    requires
        first.host != second.host,
    ensures
        first.host + page.path_text() != second.host + page.path_text(),
        (first.host + page.path_text()).take(first.host.len() as int) == first.host,
{
    let path = page.path_text();
    let one = first.host + path;
    let two = second.host + path;
    assert(one.take(first.host.len() as int) == first.host);
    if one == two {
        assert(one.len() == first.host.len() + path.len());
        assert(two.len() == second.host.len() + path.len());
        assert(two.take(second.host.len() as int) == second.host);
        assert(first.host == second.host);
    }
}

/// A reply as the transport hands it over: the page with whatever status it
/// came with, or the reason why the request did not get through.
pub open spec fn settled(raw: Result<HTMLRespond, String>) -> Result<HTMLRespond, HTTPErrorReturn> {
    match raw {
        Ok(page) => if success_status(page.code) || redirection_status(page.code) {
            Ok(page)
        } else {
            Err(HTTPErrorReturn::StatusCodeError(page.code))
        },
        Err(reason) => Err(HTTPErrorReturn::RequestError(reason)),
    }
}

/// Takes what the transport hands over for a reply or for an error: a page
/// counts as a reply where its status is a success or a redirection.
pub fn settle_reply(raw: Result<HTMLRespond, String>) -> (reply: Result<HTMLRespond, HTTPErrorReturn>)
    ensures
        reply == settled(raw),
{
    match raw {
        Ok(page) => match check_status(page.code) {
            Ok(_) => Ok(page),
            Err(_) => Err(HTTPErrorReturn::StatusCodeError(page.code)),
        },
        Err(reason) => Err(HTTPErrorReturn::RequestError(reason)),
    }
}

/// What a reply to a relayed request is taken for.
///
/// A request that did not get through makes the portal unreachable, and a
/// status that is neither a success nor a redirection is a bad status. A
/// redirection is how the portal sends a client without a session to its
/// login page, and a page that carries the mark of a client without a
/// session says the same in words: both mean that the session was dropped.
/// Any other page is the reply.
pub open spec fn relay_verdict(raw: Result<HTMLRespond, String>) -> Result<
    HTMLRespond,
    ClassifiedFailure,
> {
    match settled(raw) {
        Err(HTTPErrorReturn::RequestError(_)) => Err(ClassifiedFailure::UpstreamUnreachable),
        Err(HTTPErrorReturn::StatusCodeError(_)) => Err(ClassifiedFailure::UpstreamBadStatus),
        Ok(page) => if !success_status(page.code) || !session_alive(
            selected_texts(page.html@, "body > div"@),
        ) {
            Err(ClassifiedFailure::SessionExpiredUpstream)
        } else {
            Ok(page)
        },
    }
}

/// Takes the reply to a relayed request for the page it brought or for the
/// failure it stands for.
pub fn read_relay(raw: Result<HTMLRespond, String>) -> (read: Result<HTMLRespond, ClassifiedFailure>)
    ensures
        read == relay_verdict(raw),
{
    match settle_reply(raw) {
        Err(HTTPErrorReturn::RequestError(_)) => Err(ClassifiedFailure::UpstreamUnreachable),
        Err(HTTPErrorReturn::StatusCodeError(_)) => Err(ClassifiedFailure::UpstreamBadStatus),
        Ok(page) => {
            if !is_success(page.code) || !is_document_logined(page.html.as_str()) {
                Err(ClassifiedFailure::SessionExpiredUpstream)
            } else {
                Ok(page)
            }
        },
    }
}

} // verus!

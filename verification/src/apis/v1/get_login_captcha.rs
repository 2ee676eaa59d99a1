//! The captcha of the login page, relayed under the session of the
//! handshake.

use crate::http::APIPaths;
use crate::relay::{page_request, request_is, Method, UpstreamRequest};
use crate::responder::FileResponse;
use crate::types::LoginInfoAuthToken;
use vstd::prelude::*;

verus! {

pub const API_PATH: &'static str = "/v1/getLoginCaptcha";

/// The media type that the captcha is given out as.
pub const CAPTCHA_TYPE: &'static str = "image/gif";

/// The request for the captcha: it goes to the host that the handshake
/// credential names, with the cookie that the credential holds, so that the
/// portal shows the captcha of that session.
pub fn captcha_request(credential: &LoginInfoAuthToken) -> (request: UpstreamRequest)
    ensures
        request_is(
            request,
            Method::Get,
            credential.host@ + APIPaths::LoginCaptcha.path_text(),
            Some(credential.cookie@),
            None,
        ),
{
    page_request(credential.host.as_str(), credential.cookie.as_str(), APIPaths::LoginCaptcha)
}

/// The captcha as it is given out: the bytes as they came, as a GIF image.
pub fn captcha_response(picture: Vec<u8>) -> (response: FileResponse)
    ensures
        response.content_type@ == CAPTCHA_TYPE@,
        response.file == picture,
{
    FileResponse { content_type: CAPTCHA_TYPE.to_owned(), file: picture }
}

} // verus!

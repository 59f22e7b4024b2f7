//! Pictures: fetching them through the backend, and uploading them.

use crate::api::Sensitive;
use crate::error::ApiError;
use crate::site_fairing::SiteData;
use crate::text::{concat, str_eq};
use crate::utils::{base_url, origin};
use vstd::prelude::*;

verus! {

/// The address on the backend from which the picture `file` is fetched.
pub fn image(backend: &str, file: &str) -> (url: String)
    ensures
        url@ == backend@ + "/pictrs/image/"@ + file@,
{
    let start = concat(backend, "/pictrs/image/");
    concat(start.as_str(), file)
}

/// One picture that the backend stored.
pub struct UploadImageFile {
    pub file: String,
    pub delete_token: String,
}

/// The backend's answer to an upload.
pub struct UploadImageResponse {
    pub msg: String,
    pub files: Vec<UploadImageFile>,
}

/// The address on the backend to which pictures are uploaded.
pub fn upload_address(backend: &str) -> (url: String)
    ensures
        url@ == backend@ + "/pictrs/image"@,
{
    concat(backend, "/pictrs/image")
}

/// The cookie header with which an upload carries the visitor's session.
pub fn upload_cookie(auth: Sensitive) -> (cookie: String)
    ensures
        cookie@ == "jwt="@ + auth@,
{
    concat("jwt=", auth.expose())
}

/// The place where an uploaded file is kept until it is sent on.
pub fn upload_path(temp_dir: &str, filename: &str) -> (path: String)
    ensures
        path@ == temp_dir@ + "/"@ + filename@,
{
    let start = concat(temp_dir, "/");
    concat(start.as_str(), filename)
}

/// The error with which `url` refuses a text.
#[verifier::external_type_specification]
#[verifier::external_body]
pub struct ExUrlParseError(url::ParseError);

/// The address that `url` reads from `text`, written out again; `None`
/// where it refuses the text.
pub uninterp spec fn url_parsed(text: Seq<char>) -> Option<Seq<char>>;

/// `url::Url::parse`, with the address written out again as a string: what
/// it reads depends on the text alone.
#[verifier::external_body]
fn parse_url(text: &str) -> (parsed: Result<String, url::ParseError>)
    ensures
        match parsed {
            Ok(address) => url_parsed(text@) == Some(address@),
            Err(_) => url_parsed(text@) is None,
        },
{
    url::Url::parse(text).map(String::from)
}

/// The message of an error of `url`, as its `Display` writes it.
#[verifier::external_body]
fn url_error_message(error: &url::ParseError) -> (message: String) {
    error.to_string()
}

/// The address of the picture `file` on the site at `base_url`, as it is
/// written before it is checked.
pub open spec fn picture_address(base_url: Seq<char>, file: Seq<char>) -> Seq<char> {
    base_url + "/pictrs/image/"@ + file
}

/// Reads the address of an uploaded picture, on the site at `base_url`,
/// from the backend's answer, which names the picture's file. An answer
/// whose message is not `ok` fails with that message; an address that is
/// none is refused.
pub fn uploaded_address(response: &UploadImageResponse, base_url: &str) -> (address: Result<
    String,
    ApiError,
>)
    requires
        response.msg@ == "ok"@ ==> response.files@.len() > 0,
    ensures
        response.msg@ != "ok"@ ==> (address matches Err(ApiError::Rejected(message)) && message
            == response.msg),
        response.msg@ == "ok"@ ==> match address {
            Ok(url) => url_parsed(picture_address(base_url@, response.files@[0].file@)) == Some(
                url@,
            ),
            Err(error) => url_parsed(picture_address(base_url@, response.files@[0].file@)) is None
                && error is Rejected,
        },
{
    if !str_eq(response.msg.as_str(), "ok") {
        return Err(ApiError::Rejected(response.msg.clone()));
    }
    let start = concat(base_url, "/pictrs/image/");
    let written = concat(start.as_str(), response.files[0].file.as_str());
    match parse_url(written.as_str()) {
        Ok(url) => Ok(url),
        Err(error) => Err(ApiError::Rejected(url_error_message(&error))),
    }
}

/// Reads the address of an uploaded picture from the backend's answer: it
/// lies on the site itself, whose address names a domain.
pub fn upload_image(response: &UploadImageResponse, site_data: &SiteData) -> (address: Result<
    String,
    ApiError,
>)
    requires
        site_data.site.actor_domain is Some,
        response.msg@ == "ok"@ ==> response.files@.len() > 0,
    ensures
        ({
            let site = origin(site_data.site.actor_scheme@, site_data.site.actor_domain->0@);
            &&& response.msg@ != "ok"@ ==> (address matches Err(ApiError::Rejected(message))
                && message == response.msg)
            &&& response.msg@ == "ok"@ ==> match address {
                Ok(url) => url_parsed(picture_address(site, response.files@[0].file@)) == Some(
                    url@,
                ),
                Err(error) => url_parsed(picture_address(site, response.files@[0].file@)) is None
                    && error is Rejected,
            }
        }),
{
    let site = base_url(site_data);
    uploaded_address(response, site.as_str())
}

} // verus!

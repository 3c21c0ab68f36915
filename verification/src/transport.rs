use vstd::prelude::*;

verus! {

#[verifier::external_type_specification]
#[verifier::external_body]
pub struct ExUrl(url::Url);

/// What the transport hands back from one HTTP round trip: the status code
/// and the response body as text.
pub struct HttpResponse {
    /// The HTTP status code of the response.
    pub status: u16,
    /// The response body, decoded as text.
    pub body: String,
}

/// One request an auth backend handed to the transport: the base URL it
/// was resolved against, the endpoint under it, the token header it
/// carried (when one was), and its body.
pub struct BackendRequestView {
    pub base: Seq<char>,
    pub endpoint: Seq<char>,
    pub token: Option<Seq<char>>,
    pub body: Option<Seq<char>>,
}

/// Whether a string parses as an absolute URL, as url::Url::parse decides
/// it; the outcome depends on the string alone.
pub uninterp spec fn spec_url_ok(input: Seq<char>) -> bool;

/// Relies on url::Url::parse: parses an absolute URL from a string, and
/// succeeds exactly on the strings `spec_url_ok` names. On failure it
/// returns the parse error's description.
#[verifier::external_body]
pub(crate) fn url_parse(input: &str) -> (r: Result<url::Url, String>)
    ensures
        r is Ok <==> spec_url_ok(input@),
{
    url::Url::parse(input).map_err(|e| format!("{}", e))
}

/// Relies on url::Url::join: resolves a (possibly relative) reference
/// against a base URL. On failure it returns the parse error's description.
#[verifier::external_body]
pub(crate) fn url_join(base: &url::Url, input: &str) -> (r: Result<url::Url, String>) {
    base.join(input).map_err(|e| format!("{}", e))
}

/// Relies on reqwest's blocking client: performs one HTTP round trip with
/// the given method, headers and optional body, and returns the response's
/// status code and body text. Nothing is assumed of the response: the
/// network decides it. An invalid method name, a transport failure and a
/// failure to set the client up are all returned as the error's
/// description.
#[verifier::external_body]
pub(crate) fn http_send(
    method: &str,
    url: &url::Url,
    headers: &Vec<(String, String)>,
    body: Option<String>,
) -> (r: Result<HttpResponse, String>) {
    let m = reqwest::Method::from_bytes(method.as_bytes()).map_err(|e| format!("{}", e))?;
    let client = reqwest::blocking::Client::builder().build().map_err(|e| format!("{}", e))?;
    let mut req = client.request(m, url.clone());
    for (k, v) in headers.iter() {
        req = req.header(k, v);
    }
    if let Some(b) = body {
        req = req.body(b);
    }
    let resp = req.send().map_err(|e| format!("{}", e))?;
    Ok(HttpResponse { status: resp.status().as_u16(), body: resp.text().map_err(|e| format!("{}", e))? })
}

} // verus!

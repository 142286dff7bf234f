//! The remote backend: a policy server reached over HTTP.
//!
//! The client says what to send for a query and what a reply means. Sending
//! is the caller's: it performs the [`HttpRequest`] and reports the
//! [`Exchange`].
use vstd::prelude::*;
use vstd::utf8::decode_utf8;
use vstd::utf8::encode_utf8;
use vstd::utf8::valid_utf8;
use crate::json::json_text;
use crate::json::reply_of_text;
use crate::json::request_envelope;
use crate::Input;
use crate::OpaClientError;
use crate::OpenPolicyAgentClient;
use crate::Output;

verus! {

/// The path under which a policy server answers queries.
pub const PATH_PREFIX: &'static str = "/v1/data/";

/// A parsed URL.
#[verifier::external_type_specification]
#[verifier::external_body]
pub struct ExUrl(url::Url);

/// The URL that a text parses to, where it is an absolute URL.
pub uninterp spec fn url_parse(text: Seq<char>) -> Option<url::Url>;

/// The URL that a reference resolves to against a base, where the two can be
/// joined.
pub uninterp spec fn url_join(base: url::Url, reference: Seq<char>) -> Option<url::Url>;

/// `Url::clone`: the copy is the same URL.
pub assume_specification[ <url::Url as Clone>::clone ](source: &url::Url) -> (r: url::Url)
    ensures
        r == *source,
;

/// `std::str::from_utf8`: succeeds exactly on UTF-8, and the string has the
/// bytes it was given.
#[verifier::external_body]
fn utf8(bytes: &[u8]) -> (r: Result<&str, std::str::Utf8Error>)
    ensures
        r is Ok <==> valid_utf8(bytes@),
        r is Ok ==> encode_utf8(r->Ok_0@) == bytes@,
{
    std::str::from_utf8(bytes)
}

/// `Url::parse`: the URL is a function of the text alone, and an error is
/// returned exactly when the text is no absolute URL.
#[verifier::external_body]
fn parse_url(text: &str) -> (r: Result<url::Url, url::ParseError>)
    ensures
        r is Ok <==> url_parse(text@) is Some,
        r is Ok ==> r->Ok_0 == url_parse(text@)->Some_0,
{
    url::Url::parse(text)
}

/// `Url::join`: the URL is a function of the base and the reference alone,
/// and an error is returned exactly when the two cannot be joined.
#[verifier::external_body]
fn join_url(base: &url::Url, reference: &str) -> (r: Result<url::Url, url::ParseError>)
    ensures
        r is Ok <==> url_join(*base, reference@) is Some,
        r is Ok ==> r->Ok_0 == url_join(*base, reference@)->Some_0,
{
    base.join(reference)
}

/// How a request is sent.
#[derive(Debug, Clone, Copy, PartialEq, Eq, Structural)]
pub enum Method {
    Get,
    Post,
}

/// What to send to the policy server.
#[derive(Debug)]
pub struct HttpRequest {
    pub method: Method,
    pub url: url::Url,
    /// The body, as JSON text.
    pub body: String,
}

/// What came of sending a request.
#[derive(Debug)]
pub enum Exchange<O> {
    /// No reply arrived.
    Unreachable,
    /// A reply arrived. `body` is what its body said, or `None` where that
    /// was no reply envelope.
    Replied { status: u16, body: Option<Output<O>> },
}

impl Exchange<serde_json::Value> {
    /// The exchange in which a reply with this status and this body arrived.
    pub fn replied(status: u16, body: &str) -> (r: Self)
        ensures
            r == (Exchange::Replied { status, body: reply_of_text(body@) }),
    {
        Exchange::Replied { status, body: Output::from_wire(body) }
    }
}

/// The policy as it stands in the request path: without its leading slash,
/// where it has one.
pub open spec fn policy_path(policy: Seq<char>) -> Seq<char> {
    if policy.len() > 0 && policy[0] == '/' {
        policy.skip(1)
    } else {
        policy
    }
}

/// Strips at most one leading slash off a policy.
pub fn strip_leading_slash(policy: &str) -> (r: &str)
    ensures
        r@ == policy_path(policy@),
{
    let len = policy.unicode_len();
    if len > 0 && policy.get_char(0) == '/' {
        policy.substring_char(1, len)
    } else {
        policy
    }
}

/// The server's address, as the text of `bytes` gives it.
pub open spec fn server_url(bytes: Seq<u8>) -> Result<url::Url, OpaClientError> {
    if !valid_utf8(bytes) {
        Err(OpaClientError::Utf8Error)
    } else {
        match url_parse(decode_utf8(bytes)) {
            Some(url) => Ok(url),
            None => Err(OpaClientError::ParseError),
        }
    }
}

/// What the join under the path prefix gave: a failure is a `PolicyError`.
pub fn prefix_joined(joined: Result<url::Url, url::ParseError>) -> (r: Result<
    url::Url,
    OpaClientError,
>)
    ensures
        r == match joined {
            Ok(url) => Ok::<url::Url, OpaClientError>(url),
            Err(_) => Err(OpaClientError::PolicyError),
        },
{
    match joined {
        Ok(url) => Ok(url),
        Err(_) => Err(OpaClientError::PolicyError),
    }
}

/// What the join with the policy gave: a failure is a `JsonError`.
pub fn policy_joined(joined: Result<url::Url, url::ParseError>) -> (r: Result<
    url::Url,
    OpaClientError,
>)
    ensures
        r == match joined {
            Ok(url) => Ok::<url::Url, OpaClientError>(url),
            Err(_) => Err(OpaClientError::JsonError),
        },
{
    match joined {
        Ok(url) => Ok(url),
        Err(_) => Err(OpaClientError::JsonError),
    }
}

/// The URL at which a server at `base` answers queries for `policy`: the
/// path prefix joined to the base, and the policy, less its leading slash,
/// joined to that.
pub open spec fn request_url(base: url::Url, policy: Seq<char>) -> Result<
    url::Url,
    OpaClientError,
> {
    match url_join(base, PATH_PREFIX@) {
        None => Err(OpaClientError::PolicyError),
        Some(root) => match url_join(root, policy_path(policy)) {
            None => Err(OpaClientError::JsonError),
            Some(url) => Ok(url),
        },
    }
}

/// Builds the URL at which a server at `base` answers queries for `policy`.
pub fn policy_url(base: &url::Url, policy: &str) -> (r: Result<url::Url, OpaClientError>)
    ensures
        r == request_url(*base, policy@),
{
    let root = prefix_joined(join_url(base, PATH_PREFIX))?;
    policy_joined(join_url(&root, strip_leading_slash(policy)))
}

/// Whether `request` is the query for `policy` with `input` at a server at
/// `base`: a POST to the policy's URL that carries the input in the request
/// envelope.
pub open spec fn is_query(
    request: HttpRequest,
    base: url::Url,
    policy: Seq<char>,
    input: serde_json::Value,
) -> bool {
    &&& request.method == Method::Post
    &&& request_url(base, policy) == Ok::<url::Url, OpaClientError>(request.url)
    &&& request.body@ == request_envelope(json_text(input))
}

/// Builds the query for `policy` with `input` at a server at `base`.
pub fn query_request(base: &url::Url, policy: &str, input: &serde_json::Value) -> (r: Result<
    HttpRequest,
    OpaClientError,
>)
    ensures
        match request_url(*base, policy@) {
            Ok(_) => r is Ok && is_query(r->Ok_0, *base, policy@, *input),
            Err(e) => r == Err::<HttpRequest, OpaClientError>(e),
        },
{
    let url = policy_url(base, policy)?;
    let body = Input::new(input).wire_text();
    Ok(HttpRequest { method: Method::Post, url, body })
}

/// A query is a function of the server, the policy and the input: two
/// requests built for the same three agree in every part.
pub proof fn lemma_query_is_determined(
    first: HttpRequest,
    second: HttpRequest,
    base: url::Url,
    policy: Seq<char>,
    input: serde_json::Value,
)
    requires
        is_query(first, base, policy, input),
        is_query(second, base, policy, input),
    ensures
        first.method == second.method,
        first.url == second.url,
        first.body@ == second.body@,
{
}

/// A leading slash is stripped exactly once: what follows it is kept as it
/// is, and a policy without one is left alone.
pub proof fn lemma_one_slash_is_stripped(policy: Seq<char>)
    ensures
        policy_path(seq!['/'] + policy) == policy,
        policy.len() == 0 || policy[0] != '/' ==> policy_path(policy) == policy,
{
    assert((seq!['/'] + policy).skip(1) =~= policy);
}

/// Whether a status code reports success.
pub open spec fn is_success(status: u16) -> bool {
    200 <= status < 300
}

/// What an exchange says of the decision: the member `result` of a reply
/// that reports success, and a `PolicyError` for any other outcome.
pub open spec fn exchange_decision<O>(exchange: Exchange<O>) -> Result<Option<O>, OpaClientError> {
    match exchange {
        Exchange::Replied { status, body: Some(output) } => if is_success(status) {
            Ok(output.result)
        } else {
            Err(OpaClientError::PolicyError)
        },
        _ => Err(OpaClientError::PolicyError),
    }
}

/// Unwraps the decision from what came of sending a query.
pub fn decision<O>(exchange: Exchange<O>) -> (r: Result<Option<O>, OpaClientError>)
    ensures
        r == exchange_decision(exchange),
{
    match exchange {
        Exchange::Replied { status, body: Some(output) } => {
            if 200 <= status && status < 300 {
                Ok(output.into_result())
            } else {
                Err(OpaClientError::PolicyError)
            }
        },
        _ => Err(OpaClientError::PolicyError),
    }
}

/// A client for a policy server, which is asked for a policy by its path.
pub struct OpenPolicyAgentHttpClient {
    url: url::Url,
}

impl Clone for OpenPolicyAgentHttpClient {
    /// A client for the same server.
    fn clone(&self) -> (r: Self)
        ensures
            r.base() == self.base(),
    {
        OpenPolicyAgentHttpClient { url: self.url.clone() }
    }
}

impl OpenPolicyAgentHttpClient {
    /// The server's address.
    pub closed spec fn base(&self) -> url::Url {
        self.url
    }

    /// Makes a client for the server whose address `bytes` spell.
    pub fn new(bytes: &[u8]) -> (r: Result<Self, OpaClientError>)
        ensures
            match server_url(bytes@) {
                Ok(url) => r is Ok && r->Ok_0.base() == url,
                Err(e) => r == Err::<Self, OpaClientError>(e),
            },
    {
        let text = match utf8(bytes) {
            Ok(text) => text,
            Err(e) => {
                return Err(OpaClientError::from(e));
            },
        };
        proof {
            vstd::utf8::encode_utf8_decode_utf8(text@);
        }
        match parse_url(text) {
            Ok(url) => Ok(OpenPolicyAgentHttpClient { url }),
            Err(e) => Err(OpaClientError::from(e)),
        }
    }

    /// The server's address.
    pub fn base_url(&self) -> (r: &url::Url)
        ensures
            *r == self.base(),
    {
        &self.url
    }

    /// Builds the query for `policy` with `input`. The data document is not
    /// sent: the server holds its own.
    pub fn request<D>(&self, policy: &str, input: &serde_json::Value, _data: &D) -> (r: Result<
        HttpRequest,
        OpaClientError,
    >)
        ensures
            match request_url(self.base(), policy@) {
                Ok(_) => r is Ok && is_query(r->Ok_0, self.base(), policy@, *input),
                Err(e) => r == Err::<HttpRequest, OpaClientError>(e),
            },
    {
        query_request(&self.url, policy, input)
    }
}

impl OpenPolicyAgentClient for OpenPolicyAgentHttpClient {
    type Request = HttpRequest;

    type Outcome = Exchange<serde_json::Value>;

    open spec fn refusal(&self, rule: Seq<char>) -> Option<OpaClientError> {
        match request_url(self.base(), rule) {
            Ok(_) => None,
            Err(e) => Some(e),
        }
    }

    open spec fn asks_for(
        &self,
        request: HttpRequest,
        rule: Seq<char>,
        input: serde_json::Value,
        data: serde_json::Value,
    ) -> bool {
        is_query(request, self.base(), rule, input)
    }

    open spec fn decision_of(outcome: Exchange<serde_json::Value>) -> Result<
        Option<serde_json::Value>,
        OpaClientError,
    > {
        exchange_decision(outcome)
    }

    fn ask(&self, rule: &str, input: serde_json::Value, data: serde_json::Value) -> (r: Result<
        HttpRequest,
        OpaClientError,
    >) {
        self.request(rule, &input, &data)
    }

    fn decide(outcome: Exchange<serde_json::Value>) -> (r: Result<
        Option<serde_json::Value>,
        OpaClientError,
    >) {
        decision(outcome)
    }
}

} // verus!

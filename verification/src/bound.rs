//! The remote backend bound to one policy: the policy is fixed when the
//! client is made, and a query names none.
use vstd::prelude::*;
use crate::http::is_query;
use crate::http::query_request;
use crate::http::request_url;
use crate::http::HttpRequest;
use crate::OpaClientError;

verus! {

/// A client for one policy of a policy server.
pub struct OpenPolicyAgentHttpClient<'a> {
    url: url::Url,
    policy: &'a str,
}

impl<'a> OpenPolicyAgentHttpClient<'a> {
    /// The server's address.
    pub closed spec fn base(&self) -> url::Url {
        self.url
    }

    /// The policy that every query of this client asks for.
    pub closed spec fn policy(&self) -> Seq<char> {
        self.policy@
    }

    /// Makes a client for `policy` at the server at `url`.
    pub fn new(url: url::Url, policy: &'a str) -> (r: Self)
        ensures
            r.base() == url,
            r.policy() == policy@,
    {
        OpenPolicyAgentHttpClient { url, policy }
    }

    /// Builds the query for this client's policy with `input`. The data
    /// document is not sent: the server holds its own.
    pub fn request<D>(&self, input: &serde_json::Value, _data: &D) -> (r: Result<
        HttpRequest,
        OpaClientError,
    >)
        ensures
            match request_url(self.base(), self.policy()) {
                Ok(_) => r is Ok && is_query(r->Ok_0, self.base(), self.policy(), *input),
                Err(e) => r == Err::<HttpRequest, OpaClientError>(e),
            },
    {
        query_request(&self.url, self.policy, input)
    }
}

} // verus!

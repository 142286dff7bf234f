//! A client for Open Policy Agent decisions.
//!
//! A decision is asked of one of two backends: a policy module evaluated
//! in-process, or a policy server reached over HTTP. This crate holds the
//! rules that both share: how a policy is addressed, how a request is shaped,
//! how a reply is unwrapped, and which error each failure becomes. Moving
//! bytes and running a module are left to the caller, who reports back what
//! happened.
use vstd::prelude::*;

pub mod bound;
pub mod cli;
pub mod http;
pub mod json;
pub mod local_wasm;

verus! {

/// The request envelope: the input document under the key `input`.
#[derive(Debug)]
pub struct Input<I> {
    pub input: I,
}

/// The auxiliary data document under the key `data`.
#[derive(Debug)]
pub struct Data<I> {
    pub data: I,
}

/// The reply envelope: the decision under the key `result`, where there is
/// one.
#[derive(Debug)]
pub struct Output<O> {
    pub result: Option<O>,
}

/// Every way in which asking for a decision can fail.
#[derive(Debug, Clone, Copy, PartialEq, Eq, Structural)]
pub enum OpaClientError {
    /// The policy is unknown, or the backend failed while deciding.
    PolicyError,
    /// The address of the policy server is no URL.
    ParseError,
    /// A document is not JSON, or does not have the shape asked for.
    JsonError,
    /// The address of the policy server is not UTF-8.
    Utf8Error,
}

/// Why a text is not JSON, or a JSON value not of the type asked for.
#[verifier::external_type_specification]
#[verifier::external_body]
pub struct ExJsonError(serde_json::Error);

/// Why a URL could not be parsed.
#[verifier::external_type_specification]
#[verifier::external_body]
pub struct ExParseError(url::ParseError);

/// Where a byte string stops being UTF-8.
#[verifier::external_type_specification]
#[verifier::external_body]
pub struct ExUtf8Error(std::str::Utf8Error);

/// Why an HTTP exchange failed.
#[verifier::external_type_specification]
#[verifier::external_body]
pub struct ExHttpError(reqwest::Error);

/// The query capability that every backend offers: given a policy, an input
/// document and a data document, a decision or none.
///
/// A query runs in two steps around the backend's own work. `ask` says what
/// the backend is to do, or fails before anything is asked of it; `decide`
/// reads the decision from what the backend reports.
pub trait OpenPolicyAgentClient {
    /// What the backend is asked to do.
    type Request;

    /// What the backend reports of its work.
    type Outcome;

    /// The error with which a query for `rule` fails before the backend is
    /// asked, where it does.
    spec fn refusal(&self, rule: Seq<char>) -> Option<OpaClientError>;

    /// Whether `request` asks the backend for the decision of `rule` on
    /// `input` and `data`.
    spec fn asks_for(
        &self,
        request: Self::Request,
        rule: Seq<char>,
        input: serde_json::Value,
        data: serde_json::Value,
    ) -> bool;

    /// What a report says of the decision.
    spec fn decision_of(outcome: Self::Outcome) -> Result<Option<serde_json::Value>, OpaClientError>;

    /// Says what to ask of the backend for a query.
    fn ask(&self, rule: &str, input: serde_json::Value, data: serde_json::Value) -> (r: Result<
        Self::Request,
        OpaClientError,
    >)
        ensures
            match self.refusal(rule@) {
                Some(e) => r == Err::<Self::Request, OpaClientError>(e),
                None => r is Ok && self.asks_for(r->Ok_0, rule@, input, data),
            },
    ;

    /// Reads the decision from the backend's report.
    fn decide(outcome: Self::Outcome) -> (r: Result<Option<serde_json::Value>, OpaClientError>)
        ensures
            r == Self::decision_of(outcome),
    ;
}

/// Queries a backend: asks `backend` for what the client says, and reads the
/// decision from its report. Where the query fails before the backend is
/// asked, the error is returned as it is.
pub fn query<C: OpenPolicyAgentClient, B: FnOnce(C::Request) -> C::Outcome>(
    client: &C,
    rule: &str,
    input: serde_json::Value,
    data: serde_json::Value,
    backend: B,
) -> (r: Result<Option<serde_json::Value>, OpaClientError>)
    requires
        forall|request: C::Request|
            client.asks_for(request, rule@, input, data) ==> call_requires(backend, (request,)),
    ensures
        match client.refusal(rule@) {
            Some(e) => r == Err::<Option<serde_json::Value>, OpaClientError>(e),
            None => exists|request: C::Request, outcome: C::Outcome|
                client.asks_for(request, rule@, input, data) && call_ensures(
                    backend,
                    (request,),
                    outcome,
                ) && r == C::decision_of(outcome),
        },
{
    let request = client.ask(rule, input, data)?;
    let outcome = backend(request);
    C::decide(outcome)
}

impl<I> Input<I> {
    /// Wraps an input document for the wire.
    pub fn new(input: I) -> (r: Self)
        ensures
            r.input == input,
    {
        Input { input }
    }
}

impl<O> Output<O> {
    /// The decision that the reply carries, if it carries one.
    pub fn into_result(self) -> (r: Option<O>)
        ensures
            r == self.result,
    {
        self.result
    }
}

impl OpaClientError {
    /// The text shown for this error.
    pub open spec fn message_text(self) -> Seq<char> {
        match self {
            OpaClientError::PolicyError => "OPA Policy Error"@,
            OpaClientError::ParseError => "OPA Parse Error"@,
            OpaClientError::JsonError => "OPA JSON Error"@,
            OpaClientError::Utf8Error => "Utf8 Error"@,
        }
    }

    /// The text shown for this error.
    pub fn message(&self) -> (r: String)
        ensures
            r@ == self.message_text(),
    {
        match self {
            OpaClientError::PolicyError => "OPA Policy Error".to_owned(),
            OpaClientError::ParseError => "OPA Parse Error".to_owned(),
            OpaClientError::JsonError => "OPA JSON Error".to_owned(),
            OpaClientError::Utf8Error => "Utf8 Error".to_owned(),
        }
    }
}

impl From<serde_json::Error> for OpaClientError {
    fn from(_inner: serde_json::Error) -> (r: Self) {
        OpaClientError::JsonError
    }
}

impl vstd::std_specs::convert::FromSpecImpl<serde_json::Error> for OpaClientError {
    open spec fn obeys_from_spec() -> bool {
        true
    }

    open spec fn from_spec(_inner: serde_json::Error) -> Self {
        OpaClientError::JsonError
    }
}

impl From<std::str::Utf8Error> for OpaClientError {
    fn from(_inner: std::str::Utf8Error) -> (r: Self) {
        OpaClientError::Utf8Error
    }
}

impl vstd::std_specs::convert::FromSpecImpl<std::str::Utf8Error> for OpaClientError {
    open spec fn obeys_from_spec() -> bool {
        true
    }

    open spec fn from_spec(_inner: std::str::Utf8Error) -> Self {
        OpaClientError::Utf8Error
    }
}

impl From<url::ParseError> for OpaClientError {
    fn from(_inner: url::ParseError) -> (r: Self) {
        OpaClientError::ParseError
    }
}

impl vstd::std_specs::convert::FromSpecImpl<url::ParseError> for OpaClientError {
    open spec fn obeys_from_spec() -> bool {
        true
    }

    open spec fn from_spec(_inner: url::ParseError) -> Self {
        OpaClientError::ParseError
    }
}

impl From<reqwest::Error> for OpaClientError {
    fn from(_inner: reqwest::Error) -> (r: Self) {
        OpaClientError::PolicyError
    }
}

impl vstd::std_specs::convert::FromSpecImpl<reqwest::Error> for OpaClientError {
    open spec fn obeys_from_spec() -> bool {
        true
    }

    open spec fn from_spec(_inner: reqwest::Error) -> Self {
        OpaClientError::PolicyError
    }
}

} // verus!

//! Transport client.
//!
//! A [`WindyInstance`] owns one connection-reusing HTTP client and one
//! opaque credential.  [`WindyInstance::send_request`] serializes a
//! request to its JSON wire form, issues a single POST to the upload
//! endpoint, and classifies the outcome into a small error taxonomy; it
//! never retries.  The network decides which outcome comes back, so the
//! exact mapping from outcome to result lives in [`classify_outcome`],
//! which is verified for every possible outcome.

use vstd::prelude::*;
use vstd::string::StringExecFns;
use crate::json::{chars_to_string, dec_u, push_dec_u64, push_str_chars};
use crate::windy_request::WindyRequest;

verus! {

/// The outcome of one HTTP POST, as handed back by the transport.
#[derive(Clone, PartialEq, Debug)]
pub enum HttpOutcome {
    /// A response was received; `status` is its HTTP status code,
    /// exactly as the server sent it.  Whether that counts as success
    /// is decided by [`classify_outcome`], not by the transport.
    Received { status: u16 },
    /// The request did not complete within the transport's timeout.
    TimedOut,
    /// Any other transport-level failure, with an opaque diagnostic.
    Failed { detail: String },
}

/// A failed upload, classified for the caller.
#[derive(Clone, PartialEq, Debug)]
pub enum RequestError {
    /// The remote service responded with a non-success status; the
    /// numeric code is preserved for the caller.
    StatusError { status: u16 },
    /// The request did not complete within the transport's timeout
    /// window.
    TimeOutError,
    /// Any other transport-level failure (DNS, TLS, connection reset);
    /// the detail is an opaque diagnostic, not a typed sub-taxonomy.
    OtherError { error: String },
}

/// The human-readable description of a failure, as the uploader
/// historically printed it.
pub open spec fn request_error_chars(e: RequestError) -> Seq<char> {
    match e {
        RequestError::StatusError { status } => "send_request failed: failed with status error "@
            + dec_u(status as nat),
        RequestError::TimeOutError => "send_request failed: timeout (check your connection to stations.windy.com)"@,
        RequestError::OtherError { error } => "send_request failed: "@ + error@,
    }
}

impl RequestError {
    /// The failure described in one line, exactly
    /// [`request_error_chars`] of this value.
    pub fn message(&self) -> (s: String)
        ensures
            s@ == request_error_chars(*self),
    {
        let mut out: Vec<char> = Vec::new();
        match self {
            RequestError::StatusError { status } => {
                push_str_chars(&mut out, "send_request failed: failed with status error ");
                push_dec_u64(&mut out, *status as u64);
            },
            RequestError::TimeOutError => {
                push_str_chars(
                    &mut out,
                    "send_request failed: timeout (check your connection to stations.windy.com)",
                );
            },
            RequestError::OtherError { error } => {
                push_str_chars(&mut out, "send_request failed: ");
                push_str_chars(&mut out, error.as_str());
            },
        }
        proof {
            broadcast use crate::json::lemma_concat_assoc;

            assert(out@ =~= request_error_chars(*self));
        }
        chars_to_string(&out)
    }
}

#[verifier::external_type_specification]
#[verifier::external_body]
pub struct ExClient(reqwest::blocking::Client);

/// Relies on `reqwest::blocking::Client::builder` and
/// `ClientBuilder::build`: builds a client with a connection pool, safe
/// to reuse across sequential calls, and hands a construction failure
/// (TLS backend, resolver configuration) back as a value rather than
/// panicking as `Client::new` would.
#[verifier::external_body]
fn build_http_client() -> Result<reqwest::blocking::Client, String> {
    reqwest::blocking::Client::builder().build().map_err(|e| format!("{}", e))
}

/// Relies on `reqwest::blocking::Client`: issues one HTTP POST of
/// `body` to `url` with `Content-Type: application/json`; on
/// `Response::status` for the code of a received response (`send` does
/// not fail on HTTP status, so every received response lands in the
/// `Ok` arm); and on `reqwest::Error::is_timeout` to tell a timeout
/// from the other transport failures.  Nothing is promised of the
/// outcome: it depends on the network.
#[verifier::external_body]
fn http_post_json(client: &reqwest::blocking::Client, url: &str, body: &str) -> (r: HttpOutcome) {
    let sent = client.post(url).body(body.to_string()).header(
        reqwest::header::CONTENT_TYPE,
        "application/json",
    ).header(reqwest::header::USER_AGENT, "reqwest").send();
    match sent {
        Ok(resp) => HttpOutcome::Received { status: resp.status().as_u16() },
        Err(e) if e.is_timeout() => HttpOutcome::TimedOut,
        Err(e) => HttpOutcome::Failed { detail: format!("{}", e) },
    }
}

/// Maps one transport outcome to the caller-facing result: a received
/// response is success exactly when its status is in the 2xx range and
/// otherwise a `StatusError` keeping the exact code, a timeout keeps
/// its kind, and any other failure carries its diagnostic over
/// verbatim.  Every outcome maps to exactly one result; nothing is
/// swallowed.
pub fn classify_outcome(outcome: HttpOutcome) -> (r: Result<(), RequestError>)
    ensures
        (outcome matches HttpOutcome::Received { status } && 200 <= status <= 299) <==> r is Ok,
        (outcome matches HttpOutcome::Received { status } ==> (if 200 <= status <= 299 {
            r == Result::<(), RequestError>::Ok(())
        } else {
            r == Result::<(), RequestError>::Err(RequestError::StatusError { status })
        })),
        (outcome is TimedOut ==> r == Result::<(), RequestError>::Err(RequestError::TimeOutError)),
        (outcome matches HttpOutcome::Failed { detail } ==> r matches Err(e) && e matches
            RequestError::OtherError { error } && error@ == detail@),
{
    match outcome {
        HttpOutcome::Received { status } => {
            if 200 <= status && status <= 299 {
                Ok(())
            } else {
                Err(RequestError::StatusError { status })
            }
        },
        HttpOutcome::TimedOut => Err(RequestError::TimeOutError),
        HttpOutcome::Failed { detail } => Err(RequestError::OtherError { error: detail }),
    }
}

/// A client for the upload endpoint: one connection-reusing HTTP client
/// and one opaque credential, both bound at construction.
pub struct WindyInstance {
    api_key: String,
    client: reqwest::blocking::Client,
}

impl WindyInstance {
    /// The credential this instance appends to the endpoint URL.
    pub closed spec fn key(&self) -> Seq<char> {
        self.api_key@
    }

    /// Binds the credential and builds the long-lived HTTP client.
    /// Client construction can fail in the environment (TLS backend,
    /// resolver configuration); that failure surfaces as `OtherError`
    /// rather than a panic.
    pub fn new(api_key: String) -> (r: Result<Self, RequestError>)
        ensures
            (r matches Ok(i) ==> i.key() == api_key@),
            (r matches Err(e) ==> e is OtherError),
    {
        match build_http_client() {
            Ok(client) => Ok(WindyInstance { api_key, client }),
            Err(detail) => Err(RequestError::OtherError { error: detail }),
        }
    }

    /// The URL this instance posts to: the fixed upload path with the
    /// credential appended.
    pub fn request_url(&self) -> (u: String)
        ensures
            u@ == "https://stations.windy.com/pws/update/"@ + self.key(),
    {
        let mut url = String::new();
        url.append("https://stations.windy.com/pws/update/");
        url.append(self.api_key.as_str());
        url
    }

    /// Serializes `data` to its JSON wire form (exactly `request_json`
    /// of the request, by [`WindyRequest::to_json`]'s contract), issues
    /// a single POST to [`Self::request_url`], and classifies the
    /// outcome as [`classify_outcome`] states; never retries.  The
    /// network decides which outcome comes back, so which result this
    /// call returns cannot be promised; what holds whatever came back
    /// is that a `StatusError` never carries a success code.
    pub fn send_request(&self, data: WindyRequest) -> (r: Result<(), RequestError>)
        ensures
            forall|status: u16|
                r == Result::<(), RequestError>::Err(RequestError::StatusError { status }) ==> !(
                200 <= status <= 299),
    {
        let body = data.to_json();
        let url = self.request_url();
        let outcome = http_post_json(&self.client, url.as_str(), body.as_str());
        let r = classify_outcome(outcome);
        proof {
            assert forall|status: u16|
                r == Result::<(), RequestError>::Err(
                    RequestError::StatusError { status },
                ) implies !(200 <= status <= 299) by {
                match outcome {
                    HttpOutcome::Received { status: _ } => {},
                    HttpOutcome::TimedOut => {},
                    HttpOutcome::Failed { detail: _ } => {},
                }
            }
        }
        r
    }
}

} // verus!

//! The transport boundary: the verb set, the error taxonomy, the raw reply
//! shape, and the capability trait through which every request is sent.

use vstd::prelude::*;
use vstd::string::StringExecFns;

verus! {

/// The verbs a client may ask a transport to perform. Retrieval (GET-style
/// semantics) is the only verb any of the operations needs.
#[derive(Clone, Copy, PartialEq, Eq, Structural, Debug)]
pub enum Verb {
    Retrieve,
}

/// Why an operation failed before a remote outcome could be formed.
#[derive(Clone, Copy, PartialEq, Eq, Structural, Debug)]
pub enum ClientError {
    /// The secure channel could not be established or the request could not
    /// be sent: no status was ever obtained.
    TransportError,
    /// A status was obtained, but draining the response body failed.
    BodyReadError,
    /// The transport does not implement the requested verb.
    UnsupportedVerb,
}

/// A raw transport reply: the reported status code and the fully drained
/// body. A transport never hands back a partially read body.
#[derive(Debug)]
pub struct HttpResponse {
    pub status: u16,
    pub body: String,
}

/// Whether an executable reply `r` carries exactly the modelled reply
/// `expected`: the same status and body on success, the same error on
/// failure.
pub open spec fn reply_matches(expected: Result<(u16, Seq<char>), ClientError>, r: Result<HttpResponse, ClientError>) -> bool {
    match r {
        Ok(reply) => expected == Ok::<(u16, Seq<char>), ClientError>((reply.status, reply.body@)),
        Err(e) => expected == Err::<(u16, Seq<char>), ClientError>(e),
    }
}

/// An injected capability that performs one encrypted exchange per call:
/// send one request, block until the reply is complete, and hand back the
/// status together with the fully drained body.
pub trait Transport {
    /// The reply this transport, in its current state, gives to a request.
    /// An implementation that leaves this unspecified promises nothing of
    /// what `send` returns.
    open spec fn spec_response(&self, verb: Verb, url: Seq<char>) -> Result<(u16, Seq<char>), ClientError> {
        vstd::pervasive::arbitrary()
    }

    /// Perform one request. The result is exactly the reply this transport
    /// holds for the given verb and URL in its pre-call state.
    fn send(&mut self, verb: Verb, url: &str) -> (r: Result<HttpResponse, ClientError>)
        ensures
            reply_matches(old(self).spec_response(verb, url@), r),
    ;
}

/// A canned transport for exercising the client without a network: it
/// replies with one fixed status and body to every request and records the
/// last URL it was handed.
pub struct StubTransport {
    pub status: u16,
    pub body: String,
    pub last_url: Option<String>,
}

impl StubTransport {
    /// A stub that will answer every request with the given status and body.
    pub fn new(status: u16, body: String) -> (stub: StubTransport)
        ensures
            stub.status == status,
            stub.body@ == body@,
            stub.last_url is None,
    {
        StubTransport { status, body, last_url: None }
    }
}

impl Transport for StubTransport {
    open spec fn spec_response(&self, verb: Verb, url: Seq<char>) -> Result<(u16, Seq<char>), ClientError> {
        Ok((self.status, self.body@))
    }

    fn send(&mut self, verb: Verb, url: &str) -> (r: Result<HttpResponse, ClientError>)
        ensures
            final(self).status == old(self).status,
            final(self).body@ == old(self).body@,
            (final(self).last_url matches Some(seen) && seen@ == url@),
    {
        self.last_url = Some(String::from_str(url));
        Ok(HttpResponse { status: self.status, body: self.body.clone() })
    }
}

/// A transport that fails every request with one fixed error, for
/// exercising the client's error propagation.
pub struct FaultTransport {
    pub error: ClientError,
}

impl Transport for FaultTransport {
    open spec fn spec_response(&self, verb: Verb, url: Seq<char>) -> Result<(u16, Seq<char>), ClientError> {
        Err(self.error)
    }

    fn send(&mut self, verb: Verb, url: &str) -> (r: Result<HttpResponse, ClientError>) {
        Err(self.error)
    }
}

} // verus!

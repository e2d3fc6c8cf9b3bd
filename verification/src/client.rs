//! The client facade: it holds the caller's credential, builds each
//! operation's request URL, sends it through an injected transport, and
//! returns the normalized outcome.

use vstd::prelude::*;
use vstd::string::StringExecFns;

use crate::outcome::form_response;
use crate::outcome::result_model;
use crate::outcome::run_response;
use crate::outcome::Outcome;
use crate::transport::ClientError;
use crate::transport::Transport;
use crate::transport::Verb;

verus! {

/// Every request is made against this fixed origin.
pub const BASE_URL: &'static str = "https://api.shodan.io";

/// The URL of a host lookup: the host path with the address as its path
/// segment, and the credential as the `key` query parameter.
pub open spec fn host_info_url_spec(key: Seq<char>, ip_address: Seq<char>) -> Seq<char> {
    BASE_URL@ + "/shodan/host/"@ + ip_address + "?key="@ + key
}

/// The URL of a search: the search path with the credential as the `key`
/// query parameter and the query text as the `query` parameter.
pub open spec fn search_url_spec(key: Seq<char>, query: Seq<char>) -> Seq<char> {
    BASE_URL@ + "/shodan/host/search?key="@ + key + "&query="@ + query
}

/// The URL of a faceted search: the plain search URL with the `facets`
/// parameter appended.
pub open spec fn search_with_facets_url_spec(key: Seq<char>, query: Seq<char>, facets: Seq<char>) -> Seq<char> {
    search_url_spec(key, query) + "&facets="@ + facets
}

/// The URL of a honeypot-score lookup: the score path with the address as
/// its path segment, and the credential as the `key` query parameter.
pub open spec fn honeyscore_url_spec(key: Seq<char>, ip_address: Seq<char>) -> Seq<char> {
    BASE_URL@ + "/labs/honeyscore/"@ + ip_address + "?key="@ + key
}

/// A handle on the remote service. It holds the caller's credential and
/// nothing else; the credential is copied verbatim into every request URL,
/// never validated or transformed. Its view is the credential's character
/// sequence.
#[derive(Clone, Debug)]
pub struct ShodanClient {
    api_key: String,
}

impl View for ShodanClient {
    type V = Seq<char>;

    closed spec fn view(&self) -> Seq<char> {
        self.api_key@
    }
}

impl ShodanClient {
    /// Create a client around one opaque credential.
    pub fn new(api_key: &str) -> (client: ShodanClient)
        ensures
            client@ == api_key@,
    {
        ShodanClient { api_key: api_key.to_owned() }
    }

    /// Build the request URL of a host lookup.
    pub fn host_info_url(&self, ip_address: &str) -> (url: String)
        ensures
            url@ == host_info_url_spec(self@, ip_address@),
    {
        let mut url = BASE_URL.to_owned();
        url.append("/shodan/host/");
        url.append(ip_address);
        url.append("?key=");
        url.append(self.api_key.as_str());
        url
    }

    /// Build the request URL of a search.
    pub fn search_url(&self, query: &str) -> (url: String)
        ensures
            url@ == search_url_spec(self@, query@),
    {
        let mut url = BASE_URL.to_owned();
        url.append("/shodan/host/search?key=");
        url.append(self.api_key.as_str());
        url.append("&query=");
        url.append(query);
        url
    }

    /// Build the request URL of a faceted search.
    pub fn search_with_facets_url(&self, query: &str, facets: &str) -> (url: String)
        ensures
            url@ == search_with_facets_url_spec(self@, query@, facets@),
    {
        let mut url = self.search_url(query);
        url.append("&facets=");
        url.append(facets);
        url
    }

    /// Build the request URL of a honeypot-score lookup.
    pub fn honeyscore_url(&self, ip_address: &str) -> (url: String)
        ensures
            url@ == honeyscore_url_spec(self@, ip_address@),
    {
        let mut url = BASE_URL.to_owned();
        url.append("/labs/honeyscore/");
        url.append(ip_address);
        url.append("?key=");
        url.append(self.api_key.as_str());
        url
    }

    /// One pass through the shared pipeline: send the URL over the given
    /// transport with the given verb, then normalize the reply.
    fn request<T: Transport>(&self, transport: &mut T, verb: Verb, url: String) -> (r: Result<Outcome, ClientError>)
        ensures
            result_model(r) == run_response(old(transport).spec_response(verb, url@)),
    {
        match transport.send(verb, url.as_str()) {
            Ok(reply) => Ok(form_response(reply)),
            Err(e) => Err(e),
        }
    }

    /// Look up what the service knows about one host, by address.
    pub fn host_info<T: Transport>(&self, transport: &mut T, ip_address: &str) -> (r: Result<Outcome, ClientError>)
        ensures
            result_model(r) == run_response(old(transport).spec_response(Verb::Retrieve, host_info_url_spec(self@, ip_address@))),
    {
        let url = self.host_info_url(ip_address);
        self.request(transport, Verb::Retrieve, url)
    }

    /// Search hosts by a free-text query.
    pub fn search<T: Transport>(&self, transport: &mut T, query: &str) -> (r: Result<Outcome, ClientError>)
        ensures
            result_model(r) == run_response(old(transport).spec_response(Verb::Retrieve, search_url_spec(self@, query@))),
    {
        let url = self.search_url(query);
        self.request(transport, Verb::Retrieve, url)
    }

    /// Search hosts by a free-text query, asking for facet summaries.
    pub fn search_with_facets<T: Transport>(&self, transport: &mut T, query: &str, facets: &str) -> (r: Result<Outcome, ClientError>)
        ensures
            result_model(r) == run_response(old(transport).spec_response(Verb::Retrieve, search_with_facets_url_spec(self@, query@, facets@))),
    {
        let url = self.search_with_facets_url(query, facets);
        self.request(transport, Verb::Retrieve, url)
    }

    /// Look up one host's honeypot score, by address.
    pub fn honeyscore<T: Transport>(&self, transport: &mut T, ip_address: &str) -> (r: Result<Outcome, ClientError>)
        ensures
            result_model(r) == run_response(old(transport).spec_response(Verb::Retrieve, honeyscore_url_spec(self@, ip_address@))),
    {
        let url = self.honeyscore_url(ip_address);
        self.request(transport, Verb::Retrieve, url)
    }
}

/// No hidden state between calls: what an operation returns is a function
/// of the transport's reply to the operation's URL alone, so two calls with
/// identical arguments against transport states that reply identically
/// produce identical outcomes.
pub proof fn lemma_operations_deterministic<T: Transport>(first: T, second: T, verb: Verb, url: Seq<char>)
    requires
        first.spec_response(verb, url) == second.spec_response(verb, url),
    ensures
        run_response(first.spec_response(verb, url)) == run_response(second.spec_response(verb, url)),
{
}

} // verus!

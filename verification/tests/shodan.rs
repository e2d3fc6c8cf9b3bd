use shodan::client::ShodanClient;
use shodan::outcome::form_response;
use shodan::outcome::Outcome;
use shodan::transport::ClientError;
use shodan::transport::FaultTransport;
use shodan::transport::HttpResponse;
use shodan::transport::StubTransport;

#[test]
fn host_info_url_is_exact() {
    let client = ShodanClient::new("abc123");
    let url = client.host_info_url("8.8.8.8");
    assert_eq!(url, "https://api.shodan.io/shodan/host/8.8.8.8?key=abc123");
}

#[test]
fn search_url_is_exact() {
    let client = ShodanClient::new("abc123");
    let url = client.search_url("apache");
    assert_eq!(url, "https://api.shodan.io/shodan/host/search?key=abc123&query=apache");
}

#[test]
fn search_with_facets_url_is_exact() {
    let client = ShodanClient::new("abc123");
    let url = client.search_with_facets_url("apache", "country");
    assert_eq!(
        url,
        "https://api.shodan.io/shodan/host/search?key=abc123&query=apache&facets=country"
    );
}

#[test]
fn honeyscore_url_is_exact() {
    let client = ShodanClient::new("abc123");
    let url = client.honeyscore_url("8.8.8.8");
    assert_eq!(url, "https://api.shodan.io/labs/honeyscore/8.8.8.8?key=abc123");
}

#[test]
fn empty_credential_still_forms_key_parameter() {
    let client = ShodanClient::new("");
    let url = client.host_info_url("1.2.3.4");
    assert_eq!(url, "https://api.shodan.io/shodan/host/1.2.3.4?key=");
}

#[test]
fn empty_facets_still_appends_facets_parameter() {
    let client = ShodanClient::new("k");
    let url = client.search_with_facets_url("nginx", "");
    assert_eq!(url, "https://api.shodan.io/shodan/host/search?key=k&query=nginx&facets=");
}

#[test]
fn status_200_maps_to_success_for_every_operation() {
    let client = ShodanClient::new("k");
    let mut stub = StubTransport::new(200, String::from("B"));
    let expected: Result<Outcome, ClientError> = Ok(Outcome::Success(String::from("B")));
    assert_eq!(client.host_info(&mut stub, "1.1.1.1"), expected);
    assert_eq!(client.search(&mut stub, "apache"), expected);
    assert_eq!(client.search_with_facets(&mut stub, "apache", "port"), expected);
    assert_eq!(client.honeyscore(&mut stub, "1.1.1.1"), expected);
}

#[test]
fn status_500_maps_to_failure_for_every_operation() {
    let client = ShodanClient::new("k");
    let mut stub = StubTransport::new(500, String::from("E"));
    let expected: Result<Outcome, ClientError> = Ok(Outcome::Failure(String::from("E")));
    assert_eq!(client.host_info(&mut stub, "1.1.1.1"), expected);
    assert_eq!(client.search(&mut stub, "apache"), expected);
    assert_eq!(client.search_with_facets(&mut stub, "apache", "port"), expected);
    assert_eq!(client.honeyscore(&mut stub, "1.1.1.1"), expected);
}

#[test]
fn transport_error_propagates_distinctly() {
    let client = ShodanClient::new("k");
    let mut faulty = FaultTransport { error: ClientError::TransportError };
    assert_eq!(client.host_info(&mut faulty, "1.1.1.1"), Err(ClientError::TransportError));
}

#[test]
fn body_read_error_propagates_distinctly() {
    let client = ShodanClient::new("k");
    let mut faulty = FaultTransport { error: ClientError::BodyReadError };
    assert_eq!(client.search(&mut faulty, "apache"), Err(ClientError::BodyReadError));
}

#[test]
fn unsupported_verb_propagates_distinctly() {
    let client = ShodanClient::new("k");
    let mut faulty = FaultTransport { error: ClientError::UnsupportedVerb };
    assert_eq!(client.honeyscore(&mut faulty, "1.1.1.1"), Err(ClientError::UnsupportedVerb));
}

#[test]
fn repeated_calls_give_identical_outcomes() {
    let client = ShodanClient::new("k");
    let mut stub = StubTransport::new(200, String::from("body"));
    let first = client.search(&mut stub, "apache");
    let second = client.search(&mut stub, "apache");
    assert_eq!(first, second);
}

#[test]
fn form_response_keeps_body_verbatim() {
    let success = form_response(HttpResponse { status: 200, body: String::from("payload") });
    assert_eq!(success, Outcome::Success(String::from("payload")));
    let failure = form_response(HttpResponse { status: 404, body: String::from("not found") });
    assert_eq!(failure, Outcome::Failure(String::from("not found")));
}

#[test]
fn host_info_scenario_with_stub_transport() {
    let client = ShodanClient::new("XYZ");
    let mut stub = StubTransport::new(200, String::from("{\"ip\":\"8.8.8.8\"}"));
    let result = client.host_info(&mut stub, "8.8.8.8");
    assert_eq!(
        stub.last_url.as_deref(),
        Some("https://api.shodan.io/shodan/host/8.8.8.8?key=XYZ")
    );
    assert_eq!(result, Ok(Outcome::Success(String::from("{\"ip\":\"8.8.8.8\"}"))));
}

//! The routing table of each service configuration, and the response every
//! request receives.
//!
//! A configuration registers exactly one (method, path) pair; every request
//! is answered from the method and the path component of its target alone
//! (the query string, the headers and the request body play no part), so the
//! model of a request here is the pair itself.

use vstd::prelude::*;
use crate::response::{health_body, health_body_spec, hello_body, hello_body_spec, HttpResponse,
    ResponseModel};

verus! {

/// Which of the two services is running. The two are mutually exclusive
/// entry points, never composed.
#[derive(Clone, Copy, Debug, PartialEq, Eq, Structural)]
pub enum Config {
    /// `GET /api/v1/healthcheck` answered with a fixed JSON body.
    Healthcheck,
    /// `GET /` answered with a fixed text body.
    HelloWorld,
}

/// The one registered path of a configuration.
pub open spec fn registered_path_spec(c: Config) -> Seq<char> {
    match c {
        Config::Healthcheck => "/api/v1/healthcheck"@,
        Config::HelloWorld => "/"@,
    }
}

/// The `Content-Type` of a configuration's successful response.
pub open spec fn success_content_type_spec(c: Config) -> Seq<char> {
    match c {
        Config::Healthcheck => "application/json"@,
        Config::HelloWorld => "text/plain"@,
    }
}

/// The body of a configuration's successful response.
pub open spec fn success_body_spec(c: Config) -> Seq<char> {
    match c {
        Config::Healthcheck => health_body_spec(),
        Config::HelloWorld => hello_body_spec(),
    }
}

/// The fixed 200 response of a configuration.
pub open spec fn success_response_spec(c: Config) -> ResponseModel {
    ResponseModel {
        status: 200,
        content_type: Option::Some(success_content_type_spec(c)),
        body: success_body_spec(c),
    }
}

/// An empty response carrying only a status code, as the HTTP layer's
/// defaults produce for unmatched requests.
pub open spec fn empty_response_spec(status: int) -> ResponseModel {
    ResponseModel { status: status, content_type: Option::None, body: Seq::empty() }
}

/// What a configuration answers to a request: the canned 200 response on a
/// GET to the registered path; 405 on any other method to that path; 404 on
/// any other path, whatever the method.
pub open spec fn response_spec(c: Config, method: Seq<char>, path: Seq<char>) -> ResponseModel {
    if path != registered_path_spec(c) {
        empty_response_spec(404)
    } else if method != "GET"@ {
        empty_response_spec(405)
    } else {
        success_response_spec(c)
    }
}

/// String equality by contents.
fn str_eq(a: &str, b: &str) -> (r: bool)
    ensures
        r == (a@ == b@),
{
    let x: String = a.to_owned();
    let y: String = b.to_owned();
    x == y
}

/// The one registered path of a configuration, as the embedding program
/// hands it to its HTTP layer.
pub fn registered_path(c: &Config) -> (p: &'static str)
    ensures
        p@ == registered_path_spec(*c),
{
    match c {
        Config::Healthcheck => "/api/v1/healthcheck",
        Config::HelloWorld => "/",
    }
}

/// The `Content-Type` a configuration's successful response is sent under.
pub fn success_content_type(c: &Config) -> (t: &'static str)
    ensures
        t@ == success_content_type_spec(*c),
{
    match c {
        Config::Healthcheck => "application/json",
        Config::HelloWorld => "text/plain",
    }
}

/// Answers one request: the whole decision a service makes, from the method
/// and the path of the request to the response sent back.
pub fn route(c: &Config, method: &str, path: &str) -> (r: HttpResponse)
    ensures
        r@ == response_spec(*c, method@, path@),
{
    if !str_eq(path, registered_path(c)) {
        HttpResponse { status: 404, content_type: Option::None, body: String::new() }
    } else if !str_eq(method, "GET") {
        HttpResponse { status: 405, content_type: Option::None, body: String::new() }
    } else {
        HttpResponse {
            status: 200,
            content_type: Option::Some(success_content_type(c).to_owned()),
            body: match c {
                Config::Healthcheck => health_body(),
                Config::HelloWorld => hello_body(),
            },
        }
    }
}

/// The healthcheck handler's computation: the fixed 200 response with the
/// JSON body. The log line the service emits beside it is an observability
/// hook of the embedding program and has no effect on the response.
pub fn handle_healthcheck() -> (r: HttpResponse)
    ensures
        r@ == success_response_spec(Config::Healthcheck),
{
    HttpResponse {
        status: 200,
        content_type: Option::Some("application/json".to_owned()),
        body: health_body(),
    }
}

/// The hello-world handler's computation: the fixed 200 response with the
/// text body.
pub fn handle_hello() -> (r: HttpResponse)
    ensures
        r@ == success_response_spec(Config::HelloWorld),
{
    HttpResponse {
        status: 200,
        content_type: Option::Some("text/plain".to_owned()),
        body: hello_body(),
    }
}

/// A GET to the registered path always succeeds: the response is the
/// configuration's fixed 200 response, content type and body included. It
/// depends on the method and the path alone, so headers, query string and
/// request body cannot change it.
pub proof fn lemma_registered_get_ok(c: Config, method: Seq<char>, path: Seq<char>)
    requires
        method == "GET"@,
        path == registered_path_spec(c),
    ensures
        response_spec(c, method, path) == success_response_spec(c),
{
}

/// Any request to an unregistered path is answered 404 with an empty body,
/// whatever the method.
pub proof fn lemma_unregistered_not_found(c: Config, method: Seq<char>, path: Seq<char>)
    requires
        path != registered_path_spec(c),
    ensures
        response_spec(c, method, path) == empty_response_spec(404),
{
}

/// Any non-GET method is answered with a non-2xx status: 405 on the
/// registered path, 404 anywhere else.
pub proof fn lemma_non_get_rejected(c: Config, method: Seq<char>, path: Seq<char>)
    requires
        method != "GET"@,
    ensures
        response_spec(c, method, path) == empty_response_spec(404)
            || response_spec(c, method, path) == empty_response_spec(405),
        !(200 <= response_spec(c, method, path).status < 300),
{
}

/// Responses are a function of the configuration, the method and the path
/// alone: the same request, issued any number of times, receives an
/// identical response each time. There is no hidden state.
pub proof fn lemma_response_deterministic(
    c: Config,
    method: Seq<char>,
    path: Seq<char>,
    r1: ResponseModel,
    r2: ResponseModel,
)
    requires
        r1 == response_spec(c, method, path),
        r2 == response_spec(c, method, path),
    ensures
        r1 == r2,
{
}

} // verus!

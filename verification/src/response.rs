//! The HTTP responses the services can produce, and their mathematical model.

use vstd::prelude::*;

verus! {

/// The model of a response: status code, optional `Content-Type` header
/// value, and body, all at the specification level. A missing content type
/// stands for the HTTP layer's default (the empty 404/405 responses carry
/// none of the service's making).
#[verifier::ext_equal]
pub ghost struct ResponseModel {
    pub status: int,
    pub content_type: Option<Seq<char>>,
    pub body: Seq<char>,
}

/// A response as the embedding program sends it: status code, optional
/// `Content-Type` header value, and body.
#[derive(Debug, PartialEq, Eq)]
pub struct HttpResponse {
    pub status: u16,
    pub content_type: Option<String>,
    pub body: String,
}

impl View for HttpResponse {
    type V = ResponseModel;

    open spec fn view(&self) -> ResponseModel {
        ResponseModel {
            status: self.status as int,
            content_type: match self.content_type {
                Option::Some(t) => Option::Some(t@),
                Option::None => Option::None,
            },
            body: self.body@,
        }
    }
}

/// The healthcheck body, character for character: a JSON object with the two
/// fixed string fields `status` and `message`.
pub open spec fn health_body_spec() -> Seq<char> {
    "{\"status\":\"ok\",\"message\":\"Service is running\"}"@
}

/// The hello-world body, character for character.
pub open spec fn hello_body_spec() -> Seq<char> {
    "Hello, World!"@
}

/// Builds the healthcheck JSON body, created fresh on every call and always
/// identical.
pub fn health_body() -> (b: String)
    ensures
        b@ == health_body_spec(),
{
    "{\"status\":\"ok\",\"message\":\"Service is running\"}".to_owned()
}

/// Builds the hello-world body, created fresh on every call and always
/// identical.
pub fn hello_body() -> (b: String)
    ensures
        b@ == hello_body_spec(),
{
    "Hello, World!".to_owned()
}

/// The hello-world body is exactly 13 characters, with no trailing newline.
pub proof fn lemma_hello_body_len()
    ensures
        hello_body_spec().len() == 13,
        hello_body_spec()[12] == '!',
{
    reveal_strlit("Hello, World!");
}

} // verus!

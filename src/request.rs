//! Requests as plain data: verb, address, credentials and form fields.
use vstd::prelude::*;

use crate::envelope::{FromJson, body_decoded, query_result};
use crate::error::{AuthyErr, Transport};
use crate::json::json_of;

verus! {

#[derive(Clone, Copy, Debug, PartialEq, Eq, Structural)]
pub enum Method {
    Get,
    Post,
}

/// How a request proves who sends it.
#[derive(Clone, Debug)]
pub enum Auth {
    /// A header that carries an API key.
    Header { name: String, value: String },
    /// HTTP basic authentication.
    Basic { username: String, password: String },
}

/// One HTTP request; its fields go form-encoded whatever the verb.
#[derive(Debug)]
pub struct HttpRequest {
    pub method: Method,
    pub url: String,
    pub auth: Auth,
    pub form: Vec<(String, String)>,
}

/// Form fields as pairs of character sequences.
pub open spec fn form_view(f: Seq<(String, String)>) -> Seq<(Seq<char>, Seq<char>)> {
    f.map_values(|p: (String, String)| (p.0@, p.1@))
}

/// A request payload that is sent as form fields.
pub trait ToForm {
    /// The fields, in order.
    spec fn form_spec(&self) -> Seq<(Seq<char>, Seq<char>)>;

    fn to_form(&self) -> (r: Vec<(String, String)>)
        ensures
            form_view(r@) == self.form_spec();
}

/// Whether `q` is the request with this verb, address, credentials and
/// payload.
pub open spec fn is_request<T: ToForm>(q: HttpRequest, method: Method, url: Seq<char>, auth: Auth, payload: T) -> bool {
    &&& q.method == method
    &&& q.url@ == url
    &&& q.auth == auth
    &&& form_view(q.form@) == payload.form_spec()
}

/// Builds the request for a payload.
pub fn build_request<T: ToForm>(method: Method, url: String, auth: Auth, payload: &T) -> (r: HttpRequest)
    ensures
        is_request(r, method, url@, auth, *payload),
{
    HttpRequest { method, url, auth, form: payload.to_form() }
}

/// What a call yields, given what the exchange gave: the body of the answer
/// or the transport's error.
pub open spec fn outcome_decoded<S: FromJson>(o: Result<Vec<u8>, reqwest::Error>, r: Result<S, AuthyErr>) -> bool {
    match o {
        Ok(body) => body_decoded(json_of(body@), r),
        Err(e) => r matches Err(AuthyErr::Http(Transport::Request(x))) && x == e,
    }
}

/// Sends one request through `send`, once, and decodes what comes back.
pub fn dispatch<S: FromJson, F: FnOnce(HttpRequest) -> Result<Vec<u8>, reqwest::Error>>(
    request: HttpRequest,
    send: F,
) -> (r: Result<S, AuthyErr>)
    requires
        send.requires((request,)),
    ensures
        exists|o: Result<Vec<u8>, reqwest::Error>| send.ensures((request,), o) && outcome_decoded(o, r),
{
    let ghost q = request;
    let o = send(request);
    let r = query_result(o);
    assert(send.ensures((q,), o) && outcome_decoded(o, r));
    r
}

} // verus!

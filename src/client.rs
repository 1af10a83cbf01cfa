//! The phone-verification client: start a verification, check a code, ask
//! for the state of a verification.
use vstd::prelude::*;

use crate::decimal::{decimal, decimal_spec, parse_decimal};
use crate::envelope::FromJson;
use crate::error::AuthyErr;
use crate::json::{JsonValue, get_bool, get_str, get_u32, bool_field, str_field, u32_field};
use crate::phone::{PhoneNumber, lemma_number_parts_round_trip};
use crate::request::{Auth, HttpRequest, Method, ToForm, build_request, dispatch, form_view, outcome_decoded};

verus! {

pub const VERIFY_START_URL: &'static str = "https://api.authy.com/protected/json/phones/verification/start";

pub const VERIFY_CHECK_URL: &'static str = "https://api.authy.com/protected/json/phones/verification/check";

pub const VERIFY_STATUS_URL: &'static str = "https://api.authy.com/protected/json/phones/verification/status";

pub const API_KEY_HEADER: &'static str = "x-authy-api-key";

/// A client of the verification API, holding its API key.
pub struct Client {
    api_key: String,
}

/// How the code reaches the user.
#[derive(Clone, Copy, Debug, PartialEq, Eq, Structural)]
pub enum Via {
    SMS,
    Call,
}

impl Via {
    pub open spec fn spec_str(self) -> Seq<char> {
        match self {
            Via::SMS => "sms"@,
            Via::Call => "call"@,
        }
    }

    /// The name of the channel on the wire.
    pub fn as_str(&self) -> (r: &'static str)
        ensures
            r@ == self.spec_str(),
    {
        match self {
            Via::SMS => "sms",
            Via::Call => "call",
        }
    }
}

/// The payload that starts a verification.
#[derive(Debug)]
pub struct VerifyRequest {
    pub phone_number: String,
    pub country_code: String,
    pub via: Via,
    pub code_length: u8,
    pub locale: String,
}

impl ToForm for VerifyRequest {
    open spec fn form_spec(&self) -> Seq<(Seq<char>, Seq<char>)> {
        seq![
            ("phone_number"@, self.phone_number@),
            ("country_code"@, self.country_code@),
            ("via"@, self.via.spec_str()),
            ("code_length"@, decimal_spec(self.code_length as nat)),
            ("locale"@, self.locale@),
        ]
    }

    fn to_form(&self) -> (r: Vec<(String, String)>) {
        let mut r: Vec<(String, String)> = Vec::new();
        r.push((String::from_str("phone_number"), self.phone_number.clone()));
        r.push((String::from_str("country_code"), self.country_code.clone()));
        r.push((String::from_str("via"), String::from_str(self.via.as_str())));
        r.push((String::from_str("code_length"), decimal(self.code_length as u64)));
        r.push((String::from_str("locale"), String::from_str(self.locale.as_str())));
        assert(form_view(r@) =~= self.form_spec());
        r
    }
}

/// The payload that checks a code.
#[derive(Debug)]
pub struct CheckRequest {
    pub phone_number: String,
    pub country_code: String,
    pub verification_code: u32,
}

impl ToForm for CheckRequest {
    open spec fn form_spec(&self) -> Seq<(Seq<char>, Seq<char>)> {
        seq![
            ("phone_number"@, self.phone_number@),
            ("country_code"@, self.country_code@),
            ("verification_code"@, decimal_spec(self.verification_code as nat)),
        ]
    }

    fn to_form(&self) -> (r: Vec<(String, String)>) {
        let mut r: Vec<(String, String)> = Vec::new();
        r.push((String::from_str("phone_number"), self.phone_number.clone()));
        r.push((String::from_str("country_code"), self.country_code.clone()));
        r.push((String::from_str("verification_code"), decimal(self.verification_code as u64)));
        assert(form_view(r@) =~= self.form_spec());
        r
    }
}

/// The payload that asks for the state of a verification.
#[derive(Debug)]
pub struct StatusRequest {
    pub uuid: String,
}

impl ToForm for StatusRequest {
    open spec fn form_spec(&self) -> Seq<(Seq<char>, Seq<char>)> {
        seq![("uuid"@, self.uuid@)]
    }

    fn to_form(&self) -> (r: Vec<(String, String)>) {
        let mut r: Vec<(String, String)> = Vec::new();
        r.push((String::from_str("uuid"), self.uuid.clone()));
        assert(form_view(r@) =~= self.form_spec());
        r
    }
}

/// The answer to a started verification.
#[derive(Debug)]
pub struct VerifyResponse {
    pub carrier: String,
    pub is_cellphone: bool,
    pub message: String,
    pub seconds_to_expire: u32,
    pub uuid: String,
    pub success: bool,
}

impl FromJson for VerifyResponse {
    open spec fn has_shape(v: JsonValue) -> bool {
        &&& str_field(v, "carrier"@) is Some
        &&& bool_field(v, "is_cellphone"@) is Some
        &&& str_field(v, "message"@) is Some
        &&& u32_field(v, "seconds_to_expire"@) is Some
        &&& str_field(v, "uuid"@) is Some
        &&& bool_field(v, "success"@) is Some
    }

    open spec fn decoded_from(self, v: JsonValue) -> bool {
        &&& Some(self.carrier@) == str_field(v, "carrier"@)
        &&& Some(self.is_cellphone) == bool_field(v, "is_cellphone"@)
        &&& Some(self.message@) == str_field(v, "message"@)
        &&& Some(self.seconds_to_expire) == u32_field(v, "seconds_to_expire"@)
        &&& Some(self.uuid@) == str_field(v, "uuid"@)
        &&& Some(self.success) == bool_field(v, "success"@)
    }

    fn from_json(v: &JsonValue) -> (r: Option<VerifyResponse>) {
        let carrier = get_str(v, "carrier");
        let is_cellphone = get_bool(v, "is_cellphone");
        let message = get_str(v, "message");
        let seconds_to_expire = get_u32(v, "seconds_to_expire");
        let uuid = get_str(v, "uuid");
        let success = get_bool(v, "success");
        match (carrier, is_cellphone, message, seconds_to_expire, uuid, success) {
            (Some(carrier), Some(is_cellphone), Some(message), Some(seconds_to_expire), Some(uuid), Some(success)) => Some(
                VerifyResponse { carrier, is_cellphone, message, seconds_to_expire, uuid, success },
            ),
            _ => None,
        }
    }
}

/// The answer to a checked code.
#[derive(Debug)]
pub struct CheckResponse {
    pub message: String,
    pub success: bool,
}

impl FromJson for CheckResponse {
    open spec fn has_shape(v: JsonValue) -> bool {
        &&& str_field(v, "message"@) is Some
        &&& bool_field(v, "success"@) is Some
    }

    open spec fn decoded_from(self, v: JsonValue) -> bool {
        &&& Some(self.message@) == str_field(v, "message"@)
        &&& Some(self.success) == bool_field(v, "success"@)
    }

    fn from_json(v: &JsonValue) -> (r: Option<CheckResponse>) {
        let message = get_str(v, "message");
        let success = get_bool(v, "success");
        match (message, success) {
            (Some(message), Some(success)) => Some(CheckResponse { message, success }),
            _ => None,
        }
    }
}

impl From<CheckResponse> for bool {
    fn from(c: CheckResponse) -> (r: bool) {
        c.success
    }
}

impl vstd::std_specs::convert::FromSpecImpl<CheckResponse> for bool {
    open spec fn obeys_from_spec() -> bool {
        true
    }

    open spec fn from_spec(c: CheckResponse) -> bool {
        c.success
    }
}

/// The state of a verification.
#[derive(Clone, Copy, Debug, PartialEq, Eq, Structural)]
pub enum Status {
    Expired,
    Verified,
    Pending,
    /// A state that this library does not know.
    Unknown,
}

impl Status {
    pub open spec fn spec_from(value: Seq<char>) -> Status {
        if value == "expired"@ {
            Status::Expired
        } else if value == "verified"@ {
            Status::Verified
        } else if value == "pending"@ {
            Status::Pending
        } else {
            Status::Unknown
        }
    }

    /// Reads the state's name as the service writes it; a name this library
    /// does not know is `Unknown`.
    pub fn from_name(value: &str) -> (r: Status)
        ensures
            r == Status::spec_from(value@),
    {
        let v = String::from_str(value);
        if v == String::from_str("expired") {
            Status::Expired
        } else if v == String::from_str("verified") {
            Status::Verified
        } else if v == String::from_str("pending") {
            Status::Pending
        } else {
            Status::Unknown
        }
    }
}

impl<'a> From<&'a str> for Status {
    fn from(value: &'a str) -> (r: Status) {
        Status::from_name(value)
    }
}

impl<'a> vstd::std_specs::convert::FromSpecImpl<&'a str> for Status {
    open spec fn obeys_from_spec() -> bool {
        true
    }

    open spec fn from_spec(value: &'a str) -> Status {
        Status::spec_from(value@)
    }
}

/// The answer to a question about a verification's state.
#[derive(Debug)]
pub struct StatusResponse {
    pub status: String,
    pub seconds_to_expire: u32,
    pub success: bool,
    pub message: String,
}

impl FromJson for StatusResponse {
    open spec fn has_shape(v: JsonValue) -> bool {
        &&& str_field(v, "status"@) is Some
        &&& u32_field(v, "seconds_to_expire"@) is Some
        &&& bool_field(v, "success"@) is Some
        &&& str_field(v, "message"@) is Some
    }

    open spec fn decoded_from(self, v: JsonValue) -> bool {
        &&& Some(self.status@) == str_field(v, "status"@)
        &&& Some(self.seconds_to_expire) == u32_field(v, "seconds_to_expire"@)
        &&& Some(self.success) == bool_field(v, "success"@)
        &&& Some(self.message@) == str_field(v, "message"@)
    }

    fn from_json(v: &JsonValue) -> (r: Option<StatusResponse>) {
        let status = get_str(v, "status");
        let seconds_to_expire = get_u32(v, "seconds_to_expire");
        let success = get_bool(v, "success");
        let message = get_str(v, "message");
        match (status, seconds_to_expire, success, message) {
            (Some(status), Some(seconds_to_expire), Some(success), Some(message)) => Some(
                StatusResponse { status, seconds_to_expire, success, message },
            ),
            _ => None,
        }
    }
}

impl StatusResponse {
    /// The state that the `status` field names.
    pub fn state(&self) -> (r: Status)
        ensures
            r == Status::spec_from(self.status@),
    {
        Status::from_name(self.status.as_str())
    }
}

/// The form fields that start a verification of `number`.
pub open spec fn verify_form(number: PhoneNumber, via: Via, code_length: u8, locale: Seq<char>) -> Seq<(Seq<char>, Seq<char>)> {
    seq![
        ("phone_number"@, number.national_spec()),
        ("country_code"@, number.code_spec()),
        ("via"@, via.spec_str()),
        ("code_length"@, decimal_spec(code_length as nat)),
        ("locale"@, locale),
    ]
}

/// The form fields that check `code` for `number`.
pub open spec fn check_form(number: PhoneNumber, code: u32) -> Seq<(Seq<char>, Seq<char>)> {
    seq![
        ("phone_number"@, number.national_spec()),
        ("country_code"@, number.code_spec()),
        ("verification_code"@, decimal_spec(code as nat)),
    ]
}

/// Building a payload from a phone number keeps its digits: reading the
/// calling code and the national number back from the form fields of a
/// verification start, or of a code check, gives the number's own.
pub proof fn lemma_payload_keeps_number(number: PhoneNumber, via: Via, code_length: u8, locale: Seq<char>, code: u32)
    ensures
        verify_form(number, via, code_length, locale)[0].0 == "phone_number"@,
        parse_decimal(verify_form(number, via, code_length, locale)[0].1) == number.national_number,
        verify_form(number, via, code_length, locale)[1].0 == "country_code"@,
        parse_decimal(verify_form(number, via, code_length, locale)[1].1) == number.country_code,
        check_form(number, code)[0].0 == "phone_number"@,
        parse_decimal(check_form(number, code)[0].1) == number.national_number,
        check_form(number, code)[1].0 == "country_code"@,
        parse_decimal(check_form(number, code)[1].1) == number.country_code,
{
    lemma_number_parts_round_trip(number);
}

impl VerifyRequest {
    /// The payload that starts a verification of `number`.
    pub fn new(number: &PhoneNumber, via: Via, code_length: u8, locale: &str) -> (r: VerifyRequest)
        ensures
            r.form_spec() == verify_form(*number, via, code_length, locale@),
    {
        VerifyRequest {
            phone_number: number.national(),
            country_code: number.code(),
            via,
            code_length,
            locale: String::from_str(locale),
        }
    }
}

impl CheckRequest {
    /// The payload that checks `verification_code` for `number`.
    pub fn new(number: &PhoneNumber, verification_code: u32) -> (r: CheckRequest)
        ensures
            r.form_spec() == check_form(*number, verification_code),
    {
        CheckRequest { phone_number: number.national(), country_code: number.code(), verification_code }
    }
}

impl Client {
    /// The API key that the client sends.
    pub closed spec fn api_key_spec(&self) -> Seq<char> {
        self.api_key@
    }

    pub fn new(api_key: &str) -> (r: Client)
        ensures
            r.api_key_spec() == api_key@,
    {
        Client { api_key: String::from_str(api_key) }
    }

    /// Whether `a` is the API-key header of this client.
    pub open spec fn is_auth(&self, a: Auth) -> bool {
        a matches Auth::Header { name, value } && name@ == API_KEY_HEADER@ && value@ == self.api_key_spec()
    }

    fn auth(&self) -> (r: Auth)
        ensures
            self.is_auth(r),
    {
        Auth::Header { name: String::from_str(API_KEY_HEADER), value: self.api_key.clone() }
    }

    pub open spec fn is_verify_request(&self, q: HttpRequest, number: PhoneNumber, via: Via, code_length: u8, locale: Seq<char>) -> bool {
        &&& q.method == Method::Post
        &&& q.url@ == VERIFY_START_URL@
        &&& self.is_auth(q.auth)
        &&& form_view(q.form@) == verify_form(number, via, code_length, locale)
    }

    pub open spec fn is_check_request(&self, q: HttpRequest, number: PhoneNumber, code: u32) -> bool {
        &&& q.method == Method::Get
        &&& q.url@ == VERIFY_CHECK_URL@
        &&& self.is_auth(q.auth)
        &&& form_view(q.form@) == check_form(number, code)
    }

    pub open spec fn is_status_request(&self, q: HttpRequest, uuid: Seq<char>) -> bool {
        &&& q.method == Method::Get
        &&& q.url@ == VERIFY_STATUS_URL@
        &&& self.is_auth(q.auth)
        &&& form_view(q.form@) == seq![("uuid"@, uuid)]
    }

    /// The request that starts a verification: a POST of the number's
    /// national digits, its calling code, the channel, the code's length and
    /// the locale.
    pub fn verify_request(&self, number: &PhoneNumber, via: Via, code_length: u8, locale: &str) -> (r: HttpRequest)
        ensures
            self.is_verify_request(r, *number, via, code_length, locale@),
    {
        let payload = VerifyRequest::new(number, via, code_length, locale);
        build_request(Method::Post, String::from_str(VERIFY_START_URL), self.auth(), &payload)
    }

    /// The request that checks a code: a GET that still carries its fields
    /// form-encoded, as the service expects.
    pub fn check_request(&self, number: &PhoneNumber, verification_code: u32) -> (r: HttpRequest)
        ensures
            self.is_check_request(r, *number, verification_code),
    {
        let payload = CheckRequest::new(number, verification_code);
        build_request(Method::Get, String::from_str(VERIFY_CHECK_URL), self.auth(), &payload)
    }

    /// The request that asks for the state of the verification `uuid`.
    pub fn status_request(&self, uuid: &str) -> (r: HttpRequest)
        ensures
            self.is_status_request(r, uuid@),
    {
        let payload = StatusRequest { uuid: String::from_str(uuid) };
        build_request(Method::Get, String::from_str(VERIFY_STATUS_URL), self.auth(), &payload)
    }

    /// Starts a verification of `number`: sends the request through `send`,
    /// once, and decodes the answer.
    pub fn verify<F: FnOnce(HttpRequest) -> Result<Vec<u8>, reqwest::Error>>(
        &self,
        number: &PhoneNumber,
        via: Via,
        code_length: u8,
        locale: &str,
        send: F,
    ) -> (r: Result<VerifyResponse, AuthyErr>)
        requires
            forall|q: HttpRequest| send.requires((q,)),
        ensures
            exists|q: HttpRequest, o: Result<Vec<u8>, reqwest::Error>|
                self.is_verify_request(q, *number, via, code_length, locale@) && send.ensures((q,), o) && outcome_decoded(o, r),
    {
        let request = self.verify_request(number, via, code_length, locale);
        dispatch(request, send)
    }

    /// Checks `verification_code` for `number` through `send`.
    pub fn check<F: FnOnce(HttpRequest) -> Result<Vec<u8>, reqwest::Error>>(
        &self,
        number: &PhoneNumber,
        verification_code: u32,
        send: F,
    ) -> (r: Result<CheckResponse, AuthyErr>)
        requires
            forall|q: HttpRequest| send.requires((q,)),
        ensures
            exists|q: HttpRequest, o: Result<Vec<u8>, reqwest::Error>|
                self.is_check_request(q, *number, verification_code) && send.ensures((q,), o) && outcome_decoded(o, r),
    {
        let request = self.check_request(number, verification_code);
        dispatch(request, send)
    }

    /// Asks for the state of the verification `uuid` through `send`.
    pub fn status<F: FnOnce(HttpRequest) -> Result<Vec<u8>, reqwest::Error>>(&self, uuid: &str, send: F) -> (r: Result<StatusResponse, AuthyErr>)
        requires
            forall|q: HttpRequest| send.requires((q,)),
        ensures
            exists|q: HttpRequest, o: Result<Vec<u8>, reqwest::Error>|
                self.is_status_request(q, uuid@) && send.ensures((q,), o) && outcome_decoded(o, r),
    {
        let request = self.status_request(uuid);
        dispatch(request, send)
    }
}

} // verus!

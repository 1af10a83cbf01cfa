//! The SMS client: send one text message.
use vstd::prelude::*;

use crate::envelope::FromJson;
use crate::error::AuthyErr;
use crate::json::{
    JsonValue, field, get_field, get_opt_number, get_opt_str, get_str, opt_number_field, opt_str_field, opt_view,
    str_field,
};
use crate::decimal::parse_decimal;
use crate::phone::{PhoneNumber, lemma_e164_parts};
use crate::request::{Auth, HttpRequest, Method, dispatch, form_view, outcome_decoded};

verus! {

pub const API_BASE_URL: &'static str = "https://api.twilio.com/2010-04-01/Accounts/";

pub const MESSAGES_PATH: &'static str = "/Messages.json";

/// Links to the resources under a message.
#[derive(Debug)]
pub struct SubResourceUris {
    pub media: String,
}

impl FromJson for SubResourceUris {
    open spec fn has_shape(v: JsonValue) -> bool {
        str_field(v, "media"@) is Some
    }

    open spec fn decoded_from(self, v: JsonValue) -> bool {
        Some(self.media@) == str_field(v, "media"@)
    }

    fn from_json(v: &JsonValue) -> (r: Option<SubResourceUris>) {
        match get_str(v, "media") {
            Some(media) => Some(SubResourceUris { media }),
            None => None,
        }
    }
}

/// The record of a message that was accepted for sending. `price` is the
/// decimal text of the price, where the service gave one.
#[derive(Debug)]
pub struct SendSmsResponse {
    pub account_sid: String,
    pub api_version: String,
    pub body: String,
    pub date_created: String,
    pub date_sent: Option<String>,
    pub date_updated: Option<String>,
    pub direction: String,
    pub error_code: Option<String>,
    pub error_mesasge: Option<String>,
    pub from: String,
    pub messaging_service_sid: Option<String>,
    pub num_media: String,
    pub num_segments: String,
    pub price: Option<String>,
    pub price_unit: String,
    pub sid: String,
    pub status: String,
    pub subresource_uris: SubResourceUris,
    pub to: String,
    pub uri: String,
}

/// Whether field `key` of `v` is an object of the links' shape.
pub open spec fn uris_field_fits(v: JsonValue, key: Seq<char>) -> bool {
    field(v, key) matches Some(w) && SubResourceUris::has_shape(w)
}

impl FromJson for SendSmsResponse {
    open spec fn has_shape(v: JsonValue) -> bool {
        &&& str_field(v, "account_sid"@) is Some
        &&& str_field(v, "api_version"@) is Some
        &&& str_field(v, "body"@) is Some
        &&& str_field(v, "date_created"@) is Some
        &&& opt_str_field(v, "date_sent"@) is Some
        &&& opt_str_field(v, "date_updated"@) is Some
        &&& str_field(v, "direction"@) is Some
        &&& opt_str_field(v, "error_code"@) is Some
        &&& opt_str_field(v, "error_mesasge"@) is Some
        &&& str_field(v, "from"@) is Some
        &&& opt_str_field(v, "messaging_service_sid"@) is Some
        &&& str_field(v, "num_media"@) is Some
        &&& str_field(v, "num_segments"@) is Some
        &&& opt_number_field(v, "price"@) is Some
        &&& str_field(v, "price_unit"@) is Some
        &&& str_field(v, "sid"@) is Some
        &&& str_field(v, "status"@) is Some
        &&& uris_field_fits(v, "subresource_uris"@)
        &&& str_field(v, "to"@) is Some
        &&& str_field(v, "uri"@) is Some
    }

    open spec fn decoded_from(self, v: JsonValue) -> bool {
        &&& Some(self.account_sid@) == str_field(v, "account_sid"@)
        &&& Some(self.api_version@) == str_field(v, "api_version"@)
        &&& Some(self.body@) == str_field(v, "body"@)
        &&& Some(self.date_created@) == str_field(v, "date_created"@)
        &&& Some(opt_view(self.date_sent)) == opt_str_field(v, "date_sent"@)
        &&& Some(opt_view(self.date_updated)) == opt_str_field(v, "date_updated"@)
        &&& Some(self.direction@) == str_field(v, "direction"@)
        &&& Some(opt_view(self.error_code)) == opt_str_field(v, "error_code"@)
        &&& Some(opt_view(self.error_mesasge)) == opt_str_field(v, "error_mesasge"@)
        &&& Some(self.from@) == str_field(v, "from"@)
        &&& Some(opt_view(self.messaging_service_sid)) == opt_str_field(v, "messaging_service_sid"@)
        &&& Some(self.num_media@) == str_field(v, "num_media"@)
        &&& Some(self.num_segments@) == str_field(v, "num_segments"@)
        &&& Some(opt_view(self.price)) == opt_number_field(v, "price"@)
        &&& Some(self.price_unit@) == str_field(v, "price_unit"@)
        &&& Some(self.sid@) == str_field(v, "sid"@)
        &&& Some(self.status@) == str_field(v, "status"@)
        &&& (field(v, "subresource_uris"@) matches Some(w) && self.subresource_uris.decoded_from(w))
        &&& Some(self.to@) == str_field(v, "to"@)
        &&& Some(self.uri@) == str_field(v, "uri"@)
    }

    fn from_json(v: &JsonValue) -> (r: Option<SendSmsResponse>) {
        let account_sid = get_str(v, "account_sid");
        let api_version = get_str(v, "api_version");
        let body = get_str(v, "body");
        let date_created = get_str(v, "date_created");
        let date_sent = get_opt_str(v, "date_sent");
        let date_updated = get_opt_str(v, "date_updated");
        let direction = get_str(v, "direction");
        let error_code = get_opt_str(v, "error_code");
        let error_mesasge = get_opt_str(v, "error_mesasge");
        let from = get_str(v, "from");
        let messaging_service_sid = get_opt_str(v, "messaging_service_sid");
        let num_media = get_str(v, "num_media");
        let num_segments = get_str(v, "num_segments");
        let price = get_opt_number(v, "price");
        let price_unit = get_str(v, "price_unit");
        let sid = get_str(v, "sid");
        let status = get_str(v, "status");
        let subresource_uris = match get_field(v, "subresource_uris") {
            Some(w) => SubResourceUris::from_json(w),
            None => None,
        };
        let to = get_str(v, "to");
        let uri = get_str(v, "uri");
        if let (
            Some(account_sid),
            Some(api_version),
            Some(body),
            Some(date_created),
            Some(date_sent),
            Some(date_updated),
            Some(direction),
            Some(error_code),
            Some(error_mesasge),
            Some(from),
        ) = (
            account_sid,
            api_version,
            body,
            date_created,
            date_sent,
            date_updated,
            direction,
            error_code,
            error_mesasge,
            from,
        ) {
            if let (
                Some(messaging_service_sid),
                Some(num_media),
                Some(num_segments),
                Some(price),
                Some(price_unit),
                Some(sid),
                Some(status),
                Some(subresource_uris),
                Some(to),
                Some(uri),
            ) = (messaging_service_sid, num_media, num_segments, price, price_unit, sid, status, subresource_uris, to, uri) {
                return Some(
                    SendSmsResponse {
                        account_sid,
                        api_version,
                        body,
                        date_created,
                        date_sent,
                        date_updated,
                        direction,
                        error_code,
                        error_mesasge,
                        from,
                        messaging_service_sid,
                        num_media,
                        num_segments,
                        price,
                        price_unit,
                        sid,
                        status,
                        subresource_uris,
                        to,
                        uri,
                    },
                );
            }
        }
        None
    }
}

/// A client of the messaging API, holding an account's credentials.
pub struct Client {
    account_sid: String,
    auth_token: String,
}

/// The address that sends messages for the account `sid`.
pub open spec fn messages_url(sid: Seq<char>) -> Seq<char> {
    API_BASE_URL@ + sid + MESSAGES_PATH@
}

/// The form fields of a message.
pub open spec fn sms_form(from: PhoneNumber, to: PhoneNumber, message: Seq<char>) -> Seq<(Seq<char>, Seq<char>)> {
    seq![("From"@, from.e164_spec()), ("To"@, to.e164_spec()), ("Body"@, message)]
}

impl Client {
    pub closed spec fn account_sid_spec(&self) -> Seq<char> {
        self.account_sid@
    }

    pub closed spec fn auth_token_spec(&self) -> Seq<char> {
        self.auth_token@
    }

    pub fn new(account_sid: &str, auth_token: &str) -> (r: Client)
        ensures
            r.account_sid_spec() == account_sid@,
            r.auth_token_spec() == auth_token@,
    {
        Client { account_sid: String::from_str(account_sid), auth_token: String::from_str(auth_token) }
    }

    pub open spec fn is_send_request(&self, q: HttpRequest, from: PhoneNumber, to: PhoneNumber, message: Seq<char>) -> bool {
        &&& q.method == Method::Post
        &&& q.url@ == messages_url(self.account_sid_spec())
        &&& (q.auth matches Auth::Basic { username, password } && username@ == self.account_sid_spec()
            && password@ == self.auth_token_spec())
        &&& form_view(q.form@) == sms_form(from, to, message)
    }

    /// The request that sends `message` from `from` to `to`: a POST to the
    /// account's messages address, with basic authentication by the account
    /// SID and the auth token, and both numbers in E.164 form.
    pub fn send_sms_request(&self, from: &PhoneNumber, to: &PhoneNumber, message: &str) -> (r: HttpRequest)
        ensures
            self.is_send_request(r, *from, *to, message@),
    {
        let url = String::from_str(API_BASE_URL);
        let url = url.concat(self.account_sid.as_str());
        let url = url.concat(MESSAGES_PATH);
        let mut form: Vec<(String, String)> = Vec::new();
        form.push((String::from_str("From"), from.e164()));
        form.push((String::from_str("To"), to.e164()));
        form.push((String::from_str("Body"), String::from_str(message)));
        assert(form_view(form@) =~= sms_form(*from, *to, message@));
        HttpRequest {
            method: Method::Post,
            url,
            auth: Auth::Basic { username: self.account_sid.clone(), password: self.auth_token.clone() },
            form,
        }
    }

    /// Sends `message` from `from` to `to` through `send`, once, and decodes
    /// the answer.
    pub fn send_sms<F: FnOnce(HttpRequest) -> Result<Vec<u8>, reqwest::Error>>(
        &self,
        from: &PhoneNumber,
        to: &PhoneNumber,
        message: &str,
        send: F,
    ) -> (r: Result<SendSmsResponse, AuthyErr>)
        requires
            forall|q: HttpRequest| send.requires((q,)),
        ensures
            exists|q: HttpRequest, o: Result<Vec<u8>, reqwest::Error>|
                self.is_send_request(q, *from, *to, message@) && send.ensures((q,), o) && outcome_decoded(o, r),
    {
        let request = self.send_sms_request(from, to, message);
        dispatch(request, send)
    }
}

/// A message's fields keep what they were built from: `From` and `To` are
/// the E.164 forms of the two numbers, whose calling code and national
/// number read back as the numbers' own, and `Body` is the message.
pub proof fn lemma_sms_form_keeps_numbers(from: PhoneNumber, to: PhoneNumber, message: Seq<char>)
    ensures
        sms_form(from, to, message)[0] == ("From"@, from.e164_spec()),
        sms_form(from, to, message)[1] == ("To"@, to.e164_spec()),
        sms_form(from, to, message)[2] == ("Body"@, message),
        parse_decimal(from.e164_spec().subrange(1, 1 + from.code_spec().len() as int)) == from.country_code,
        parse_decimal(from.e164_spec().subrange(1 + from.code_spec().len() as int, from.e164_spec().len() as int))
            == from.national_number,
        parse_decimal(to.e164_spec().subrange(1, 1 + to.code_spec().len() as int)) == to.country_code,
        parse_decimal(to.e164_spec().subrange(1 + to.code_spec().len() as int, to.e164_spec().len() as int))
            == to.national_number,
{
    lemma_e164_parts(from);
    lemma_e164_parts(to);
}

} // verus!

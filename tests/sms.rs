use authy::error::{AuthyErr, Transport};
use authy::phone::PhoneNumber;
use authy::request::{Auth, HttpRequest, Method};
use authy::sms::Client;

const TEST_MESSAGE: &str = "Hello Rust";
const VALID_NUMBER: &str = "+15005550010";
const OUR_NUMBER: &str = "+15005550006 ";

fn parse_number(s: &str) -> PhoneNumber {
    let p = phonenumber::parse(None, s).expect("Can't parse phone number");
    PhoneNumber::new(p.code().value(), p.national().value(), p.national().zeros())
}

fn client() -> Client {
    Client::new("ACtest", "SECRET-REDACTED")
}

fn field<'a>(req: &'a HttpRequest, key: &str) -> &'a str {
    req.form.iter().find(|(k, _)| k == key).map(|(_, v)| v.as_str()).expect("field")
}

fn error_body(code: u32) -> Vec<u8> {
    format!(r#"{{"code":{},"message":"error {}","more_info":"https://www.twilio.com/docs/errors/{}","status":400}}"#, code, code, code).into_bytes()
}

const SENT_BODY: &str = r#"{"account_sid":"ACtest","api_version":"2010-04-01","body":"Hello Rust","date_created":"Thu, 30 Jul 2015 20:12:31 +0000","date_sent":null,"date_updated":"Thu, 30 Jul 2015 20:12:33 +0000","direction":"outbound-api","error_code":null,"error_message":null,"from":"+15005550006","messaging_service_sid":null,"num_media":"0","num_segments":"1","price":null,"price_unit":"USD","sid":"SM1","status":"queued","subresource_uris":{"media":"/2010-04-01/Accounts/ACtest/Messages/SM1/Media.json"},"to":"+15005550010","uri":"/2010-04-01/Accounts/ACtest/Messages/SM1.json"}"#;

/// Stands in for the service's test credentials, which answer by the magic
/// numbers of the sender and the recipient.
fn test_service(req: HttpRequest) -> Result<Vec<u8>, reqwest::Error> {
    assert_eq!(req.method, Method::Post);
    assert_eq!(req.url, "https://api.twilio.com/2010-04-01/Accounts/ACtest/Messages.json");
    match &req.auth {
        Auth::Basic { username, password } => {
            assert_eq!(username, "ACtest");
            assert_eq!(password, "SECRET-REDACTED");
        },
        other => panic!("expected basic authentication, got {:?}", other),
    }
    assert_eq!(field(&req, "Body"), TEST_MESSAGE);
    let from_code = match field(&req, "From") {
        "+15005550001" => Some(21212),
        "+15005550007" => Some(21606),
        "+15005550008" => Some(21611),
        "+15005550006" => None,
        _ => Some(21606),
    };
    if let Some(code) = from_code {
        return Ok(error_body(code));
    }
    let to_code = match field(&req, "To") {
        "+15005550001" => Some(21211),
        "+15005550002" => Some(21612),
        "+15005550003" => Some(21408),
        "+15005550004" => Some(21610),
        "+15005550009" => Some(21614),
        _ => None,
    };
    match to_code {
        Some(code) => Ok(error_body(code)),
        None => Ok(SENT_BODY.as_bytes().to_vec()),
    }
}

fn test_number(from: &str, to: &str, expected: Option<u32>) {
    let result = client().send_sms(&parse_number(from), &parse_number(to), TEST_MESSAGE, test_service);

    let got: Option<u32> = match result {
        Err(AuthyErr::Http(Transport::Request(e))) => panic!("HttpError: {}", e),
        Err(AuthyErr::Http(Transport::Decode)) => panic!("answer not decoded"),
        Err(AuthyErr::Api(e)) => Some(e),
        _ => None,
    }.map(|e| e.code);

    if got != expected {
        panic!("Expected {:?}, but got: {:?}", expected, got);
    }
}

#[test]
fn test_1() {
    test_number("+15005550001", VALID_NUMBER, Some(21212));
}

#[test]
fn test_2() {
    test_number("+15005550007", VALID_NUMBER, Some(21606));
}

#[test]
fn test_3() {
    test_number("+15005550008", VALID_NUMBER, Some(21611));
}

#[test]
fn test_4() {
    test_number("+15005550006", VALID_NUMBER, None);
}

#[test]
fn test_5() {
    test_number(VALID_NUMBER, VALID_NUMBER, Some(21606));
}

#[test]
fn test_8() {
    test_number(OUR_NUMBER, "+15005550001", Some(21211));
}

#[test]
fn test_9() {
    test_number(OUR_NUMBER, "+15005550002", Some(21612));
}

#[test]
fn test_10() {
    test_number(OUR_NUMBER, "+15005550003", Some(21408));
}

#[test]
fn test_11() {
    test_number(OUR_NUMBER, "+15005550004", Some(21610));
}

#[test]
fn test_12() {
    test_number(OUR_NUMBER, "+15005550009", Some(21614));
}

#[test]
fn test_13() {
    test_number(OUR_NUMBER, VALID_NUMBER, None);
}

#[test]
fn send_request_fields() {
    let req = client().send_sms_request(&parse_number("+15005550006"), &parse_number("+442071838750"), "hi");
    assert_eq!(req.method, Method::Post);
    let form: Vec<(&str, &str)> = req.form.iter().map(|(k, v)| (k.as_str(), v.as_str())).collect();
    assert_eq!(form, vec![("From", "+15005550006"), ("To", "+442071838750"), ("Body", "hi")]);
}

#[test]
fn sent_message_record_decodes() {
    let r = client().send_sms(&parse_number("+15005550006"), &parse_number(VALID_NUMBER), TEST_MESSAGE, test_service);
    let m = r.expect("sent");
    assert_eq!(m.sid, "SM1");
    assert_eq!(m.status, "queued");
    assert_eq!(m.date_sent, None);
    assert_eq!(m.date_updated.as_deref(), Some("Thu, 30 Jul 2015 20:12:33 +0000"));
    assert_eq!(m.price, None);
    assert_eq!(m.subresource_uris.media, "/2010-04-01/Accounts/ACtest/Messages/SM1/Media.json");
}

#[test]
fn price_is_read_as_decimal_text() {
    let body = SENT_BODY.replace(r#""price":null"#, r#""price":-0.0075"#);
    let r = client().send_sms(&parse_number("+15005550006"), &parse_number(VALID_NUMBER), TEST_MESSAGE, move |_req| Ok(body.into_bytes()));
    assert_eq!(r.expect("sent").price.as_deref(), Some("-0.0075"));
    let body = SENT_BODY.replace(r#""price":null"#, r#""price":"-0.0075""#);
    let r = client().send_sms(&parse_number("+15005550006"), &parse_number(VALID_NUMBER), TEST_MESSAGE, move |_req| Ok(body.into_bytes()));
    assert!(matches!(r, Err(AuthyErr::Http(Transport::Decode))));
}

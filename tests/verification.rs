use authy::client::{Client, StatusRequest, Via, VERIFY_CHECK_URL, VERIFY_START_URL, VERIFY_STATUS_URL};
use authy::error::{ApiError, AuthyErr, Transport};
use authy::phone::PhoneNumber;
use authy::request::{Auth, HttpRequest, Method, ToForm};

const TEST_PHONE_NUMBER: &str = "+15005550006";

fn parse_number(s: &str) -> PhoneNumber {
    let p = phonenumber::parse(None, s).expect("Can't parse test phone number");
    PhoneNumber::new(p.code().value(), p.national().value(), p.national().zeros())
}

fn setup() -> (Client, PhoneNumber) {
    (Client::new("test-api-key"), parse_number(TEST_PHONE_NUMBER))
}

fn fields(req: &HttpRequest) -> Vec<(&str, &str)> {
    req.form.iter().map(|(k, v)| (k.as_str(), v.as_str())).collect()
}

fn assert_key(req: &HttpRequest) {
    match &req.auth {
        Auth::Header { name, value } => {
            assert_eq!(name, "x-authy-api-key");
            assert_eq!(value, "test-api-key");
        },
        other => panic!("expected the API-key header, got {:?}", other),
    }
}

/// Stands in for the service: answers a well-formed request with `body`.
fn stub(body: &'static str) -> impl FnOnce(HttpRequest) -> Result<Vec<u8>, reqwest::Error> {
    move |req: HttpRequest| {
        assert_key(&req);
        Ok(body.as_bytes().to_vec())
    }
}

const VERIFY_BODY: &str = r#"{"carrier":"AT&T Wireless","is_cellphone":true,"message":"Text message sent to +1 500-555-0006.","seconds_to_expire":599,"uuid":"b8ebcd40-1234-5678-3fb5-0e5d6a065904","success":true}"#;
const CHECK_BODY: &str = r#"{"message":"Verification code is correct.","success":true}"#;
const STATUS_BODY: &str = r#"{"message":"Phone Verification status.","status":"verified","seconds_to_expire":474,"success":true}"#;

#[test]
fn authy_test_verify() {
    let (client, test_phone_number) = setup();
    println!("Response:\n{:#?}", client.verify(&test_phone_number, Via::SMS, 6, "de", stub(VERIFY_BODY))
        .expect("verify error"));
}

#[test]
fn authy_test_check() {
    let verification_code = 218904;
    let (client, test_phone_number) = setup();
    println!("Response:\n{:#?}", client.check(&test_phone_number, verification_code, stub(CHECK_BODY))
        .expect("check error"));
}

#[test]
fn client_test_verify() {
    let (client, test_phone_number) = setup();
    println!("Response:\n{:#?}", client.verify(&test_phone_number, Via::SMS, 6, "de", stub(VERIFY_BODY))
        .expect("verify error"));
}

#[test]
fn client_test_check() {
    let verification_code: Option<u32> = Some(218904);
    let verification_code = verification_code.expect("You must set the verification code here to get a positive result");

    let (client, test_phone_number) = setup();
    println!("Response:\n{:#?}", client.check(&test_phone_number, verification_code, stub(CHECK_BODY))
        .expect("check error"));
}

#[test]
fn test_status() {
    let uuid: Option<&str> = Some("b8ebcd40-1234-5678-3fb5-0e5d6a065904");
    let uuid = uuid.expect("You must set the UUID for a verification request here to get a positive result");

    let (client, _) = setup();
    println!("Response:\n{:#?}", client.status(uuid, stub(STATUS_BODY)));
}

#[test]
fn verify_start_sends_expected_request_and_reads_uuid() {
    let (client, number) = setup();
    let r = client.verify(&number, Via::SMS, 6, "en", |req: HttpRequest| {
        assert_eq!(req.method, Method::Post);
        assert_eq!(req.url, "https://api.authy.com/protected/json/phones/verification/start");
        assert_eq!(req.url, VERIFY_START_URL);
        assert_key(&req);
        assert_eq!(fields(&req), vec![
            ("phone_number", "5005550006"),
            ("country_code", "1"),
            ("via", "sms"),
            ("code_length", "6"),
            ("locale", "en"),
        ]);
        Ok(br#"{"success":true,"uuid":"abc","seconds_to_expire":599,"carrier":"Twilio","is_cellphone":true,"message":"Text message sent"}"#.to_vec())
    });
    let v = r.expect("verify error");
    assert_eq!(v.uuid, "abc");
    assert_eq!(v.seconds_to_expire, 599);
    assert!(v.success);
}

#[test]
fn verify_start_reports_api_error() {
    let (client, number) = setup();
    let r = client.verify(&number, Via::SMS, 6, "en", stub(r#"{"success":false,"code":60033,"message":"Invalid phone number","more_info":"https://www.twilio.com/docs/errors/60033","status":400}"#));
    match r {
        Err(AuthyErr::Api(e)) => {
            assert_eq!(e.code, 60033);
            assert_eq!(e.status, 400);
            assert_eq!(e.message, "Invalid phone number");
        },
        other => panic!("expected an API error, got {:?}", other),
    }
}

#[test]
fn verify_by_call_with_four_digits() {
    let client = Client::new("k");
    let req = client.verify_request(&parse_number("+393123456789"), Via::Call, 4, "it");
    assert_eq!(fields(&req), vec![
        ("phone_number", "3123456789"),
        ("country_code", "39"),
        ("via", "call"),
        ("code_length", "4"),
        ("locale", "it"),
    ]);
}

#[test]
fn italian_fixed_line_keeps_leading_zero() {
    let number = parse_number("+390236618300");
    assert_eq!(number.leading_zeros, 1);
    assert_eq!(number.national(), "0236618300");
    assert_eq!(number.code(), "39");
    let req = Client::new("k").check_request(&number, 7);
    assert_eq!(fields(&req), vec![
        ("phone_number", "0236618300"),
        ("country_code", "39"),
        ("verification_code", "7"),
    ]);
}

#[test]
fn check_is_a_get_with_form_fields() {
    let (client, number) = setup();
    let req = client.check_request(&number, 218904);
    assert_eq!(req.method, Method::Get);
    assert_eq!(req.url, VERIFY_CHECK_URL);
    assert_key(&req);
    assert_eq!(fields(&req), vec![
        ("phone_number", "5005550006"),
        ("country_code", "1"),
        ("verification_code", "218904"),
    ]);
}

#[test]
fn status_is_a_get_with_the_uuid() {
    let (client, _) = setup();
    let req = client.status_request("abc-123");
    assert_eq!(req.method, Method::Get);
    assert_eq!(req.url, VERIFY_STATUS_URL);
    assert_key(&req);
    assert_eq!(fields(&req), vec![("uuid", "abc-123")]);
    let payload = StatusRequest { uuid: "u".to_string() };
    assert_eq!(payload.to_form(), vec![("uuid".to_string(), "u".to_string())]);
}

#[test]
fn status_call_decodes_state() {
    let (client, _) = setup();
    let s = client.status("abc", stub(STATUS_BODY)).expect("status error");
    assert_eq!(s.status, "verified");
    assert_eq!(s.seconds_to_expire, 474);
}

#[test]
fn check_call_reports_wrong_code() {
    let (client, number) = setup();
    let r = client.check(&number, 1, stub(r#"{"message":"Verification code is incorrect","success":false,"code":60022,"more_info":"x","status":401}"#));
    // A body that holds the payload's fields decodes to the payload.
    let c = r.expect("payload");
    assert!(!c.success);
    let r = client.check(&number, 1, stub(r#"{"message":"Verification code is incorrect","code":60022,"more_info":"x","status":401}"#));
    assert!(matches!(r, Err(AuthyErr::Api(ApiError { code: 60022, .. }))));
}

#[test]
fn transport_failure_from_send_is_http_error() {
    let (client, number) = setup();
    let r = client.verify(&number, Via::SMS, 6, "en", |_req: HttpRequest| {
        reqwest::blocking::Client::new().get("http://127.0.0.1:1/").send().map(|_| Vec::new())
    });
    assert!(matches!(r, Err(AuthyErr::Http(Transport::Request(_)))));
}

#[test]
fn verify_with_unreadable_answer_is_transport_error() {
    let (client, number) = setup();
    let r = client.verify(&number, Via::SMS, 6, "en", stub("<html>Service Unavailable</html>"));
    assert!(matches!(r, Err(AuthyErr::Http(Transport::Decode))));
}

use kucoin::client::{
    interpret_failure, interpret_success, prepare_request, prepare_request_at, status_error, Api, Credentials, FApi,
    Method, ResponseEnvelope, SApi,
};
use kucoin::error::{Error, SystemCode, SystemError};
use kucoin::time::Time;

fn creds() -> Credentials {
    Credentials::new("the-key", "the-passphrase", "key")
}

fn header<'a>(headers: &'a [(String, String)], name: &str) -> Option<&'a str> {
    headers.iter().find(|(n, _)| n == name).map(|(_, v)| v.as_str())
}

#[test]
fn hosts() {
    assert_eq!(SApi::host(), "https://api.kucoin.com");
    assert_eq!(FApi::host(), "https://api-futures.kucoin.com");
}

#[test]
fn credentials_keep_their_parts() {
    let c = creds();
    assert_eq!(c.key(), "the-key");
    assert_eq!(c.passphrase(), "the-passphrase");
    let c2 = c.clone();
    assert_eq!(c2.key(), "the-key");
}

#[test]
fn sign_is_base64_of_hmac_sha256() {
    // The HMAC-SHA256 test vector of key "key" over this sentence.
    let c = creds();
    assert_eq!(
        c.sign("The quick brown fox jumps over the lazy dog"),
        "97yD9DBThCSxMpjmqm+xQ+9NWaFJRhdZl0edvC0aPNg="
    );
    assert_eq!(c.sign(""), Credentials::new("k", "p", "key").sign(""));
    assert_ne!(c.sign("a"), c.sign("b"));
}

#[test]
fn query_requests_carry_data_in_the_url() {
    let c = creds();
    let t = Time::from_unix_millis(1_600_000_000_000);
    let r = prepare_request_at("https://api.kucoin.com", Method::Get, "/api/v1/accounts", "currency=BTC", Some(&c), &t);
    assert_eq!(r.method, Method::Get);
    assert_eq!(r.url, "https://api.kucoin.com/api/v1/accounts?currency=BTC");
    assert!(r.body.is_none());
    let names: Vec<&str> = r.headers.iter().map(|(n, _)| n.as_str()).collect();
    assert_eq!(names, vec!["KC-API-KEY", "KC-API-SIGN", "KC-API-TIMESTAMP", "KC-API-PASSPHRASE", "KC-API-KEY-VERSION"]);
    assert_eq!(header(&r.headers, "KC-API-KEY"), Some("the-key"));
    assert_eq!(header(&r.headers, "KC-API-TIMESTAMP"), Some("1600000000000"));
    let expected_sign = c.sign("1600000000000GET/api/v1/accounts?currency=BTC");
    assert_eq!(header(&r.headers, "KC-API-SIGN"), Some(expected_sign.as_str()));
    let expected_pass = c.sign("the-passphrase");
    assert_eq!(header(&r.headers, "KC-API-PASSPHRASE"), Some(expected_pass.as_str()));
    assert_eq!(header(&r.headers, "KC-API-KEY-VERSION"), Some("2"));
}

#[test]
fn empty_query_leaves_the_path_alone() {
    let t = Time::from_unix_millis(5);
    let r = prepare_request_at("https://h", Method::Delete, "/api/v1/orders/1", "", None, &t);
    assert_eq!(r.url, "https://h/api/v1/orders/1");
    assert!(r.headers.is_empty());
    assert!(r.body.is_none());
}

#[test]
fn body_requests_sign_the_body() {
    let c = creds();
    let t = Time::from_unix_millis(7);
    let r = prepare_request_at("https://h", Method::Post, "/api/v1/orders", "{\"a\":1}", Some(&c), &t);
    assert_eq!(r.url, "https://h/api/v1/orders");
    assert_eq!(r.body.as_deref(), Some("{\"a\":1}"));
    let expected_sign = c.sign("7POST/api/v1/orders{\"a\":1}");
    assert_eq!(header(&r.headers, "KC-API-SIGN"), Some(expected_sign.as_str()));
    assert_eq!(r.headers.last().map(|(n, v)| (n.as_str(), v.as_str())), Some(("Content-Type", "application/json")));
    let unsigned = prepare_request_at("https://h", Method::Put, "/p", "null", None, &t);
    assert_eq!(unsigned.headers, vec![("Content-Type".to_string(), "application/json".to_string())]);
    assert_eq!(unsigned.body.as_deref(), Some("null"));
}

#[test]
fn prepare_request_stamps_the_current_time() {
    let c = creds();
    let r = prepare_request("https://h", Method::Get, "/x", "", Some(&c));
    let ts = header(&r.headers, "KC-API-TIMESTAMP").unwrap().to_string();
    assert!(ts.parse::<i64>().unwrap() > 1_600_000_000_000);
    let expected_sign = c.sign(&format!("{ts}GET/x"));
    assert_eq!(header(&r.headers, "KC-API-SIGN"), Some(expected_sign.as_str()));
}

#[test]
fn method_names() {
    assert_eq!(Method::Delete.as_str(), "DELETE");
    assert_eq!(Method::Patch.as_str(), "PATCH");
    assert!(Method::Get.data_in_query());
    assert!(!Method::Post.data_in_query());
}

#[test]
fn success_envelope_yields_data() {
    let env = ResponseEnvelope { code: SystemCode(200000), data: Some(5u32), msg: None };
    assert!(matches!(interpret_success(Ok(env), String::new()), Ok(5)));
}

#[test]
fn failed_envelope_is_a_bad_request() {
    let env: ResponseEnvelope<u32> = ResponseEnvelope { code: SystemCode(400100), data: None, msg: Some("bad".to_string()) };
    match interpret_success(Ok(env), String::new()) {
        Err(Error::BadRequest { source }) => {
            assert_eq!(source.code, SystemCode(400100));
            assert_eq!(source.msg, "bad");
        },
        other => panic!("unexpected {:?}", other),
    }
    let env: ResponseEnvelope<u32> = ResponseEnvelope { code: SystemCode(200000), data: None, msg: None };
    match interpret_success(Ok(env), String::new()) {
        Err(Error::BadRequest { source }) => assert_eq!(source.msg, "An unknown error occurred."),
        other => panic!("unexpected {:?}", other),
    }
    let env: ResponseEnvelope<u32> = ResponseEnvelope { code: SystemCode(1), data: Some(1), msg: None };
    assert!(matches!(interpret_success(Ok(env), String::new()), Err(Error::BadRequest { .. })));
}

#[test]
fn undecodable_body_is_reported_with_the_body() {
    let r: Result<u32, Error> = interpret_success(Err("eof".to_string()), "{".to_string());
    match r {
        Err(Error::ResponseDecoding { resp_json, reason }) => {
            assert_eq!(resp_json, "{");
            assert_eq!(reason, "eof");
        },
        other => panic!("unexpected {:?}", other),
    }
}

fn se() -> SystemError {
    SystemError { code: SystemCode(1), msg: "m".to_string() }
}

#[test]
fn statuses_map_to_errors() {
    assert!(matches!(status_error(400, se()), Error::BadRequest { .. }));
    assert!(matches!(status_error(401, se()), Error::Unauthorized { .. }));
    assert!(matches!(status_error(403, se()), Error::Forbidden { .. }));
    assert!(matches!(status_error(404, se()), Error::NotFound { .. }));
    assert!(matches!(status_error(405, se()), Error::MethodNotAllowed { .. }));
    assert!(matches!(status_error(415, se()), Error::IncorrectContentType { .. }));
    assert!(matches!(status_error(429, se()), Error::TooManyRequests { .. }));
    assert!(matches!(status_error(500, se()), Error::InternalServer { .. }));
    assert!(matches!(status_error(503, se()), Error::ServiceUnavailable { .. }));
    assert!(matches!(status_error(418, se()), Error::UnexpectedStatus { status: 418, .. }));
    assert!(matches!(interpret_failure(429, Ok(se()), String::new()), Error::TooManyRequests { .. }));
    assert!(matches!(interpret_failure(429, Err("x".to_string()), "b".to_string()), Error::ResponseDecoding { .. }));
}

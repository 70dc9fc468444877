//! End-to-end behaviour of the client pipeline: encoding, URL resolution,
//! header building, status checking, envelope parsing and extraction.

use pretty_rest::client::{RestClient, complete};
use pretty_rest::envelope::RestResponse;
use pretty_rest::header::{HeaderHook, NoHook, RestHeaderBuilder};
use pretty_rest::{Request, RequestMethod, Response, RestError};

#[derive(Debug, Clone, PartialEq, Eq)]
struct Instrument {
    inst_type: String,
    inst_id: String,
}

struct InstrumentsEnvelope(RestResponse<Vec<Instrument>>);

impl Response for InstrumentsEnvelope {
    type Data = Vec<Instrument>;

    fn parse(body: &[u8]) -> Result<Self, String> {
        let v: serde_json::Value = serde_json::from_slice(body).map_err(|e| e.to_string())?;
        let obj = v.as_object().ok_or_else(|| "not an object".to_string())?;
        let code: u64 = match obj.get("code") {
            Some(serde_json::Value::String(s)) => s.parse().map_err(|_| "bad code".to_string())?,
            Some(serde_json::Value::Number(n)) => {
                n.as_u64().ok_or_else(|| "bad code".to_string())?
            }
            _ => return Err("no code".to_string()),
        };
        let msg = match obj.get("msg") {
            Some(m) => Some(
                m.as_str()
                    .ok_or_else(|| "bad msg".to_string())?
                    .to_string(),
            ),
            None => None,
        };
        let data = match obj.get("data") {
            Some(d) => {
                let arr = d.as_array().ok_or_else(|| "bad data".to_string())?;
                let mut items = Vec::new();
                for it in arr {
                    let o = it.as_object().ok_or_else(|| "bad item".to_string())?;
                    let inst_type = o
                        .get("instType")
                        .and_then(|x| x.as_str())
                        .ok_or_else(|| "bad instType".to_string())?
                        .to_string();
                    let inst_id = o
                        .get("instId")
                        .and_then(|x| x.as_str())
                        .ok_or_else(|| "bad instId".to_string())?
                        .to_string();
                    items.push(Instrument { inst_type, inst_id });
                }
                Some(items)
            }
            None => None,
        };
        Ok(InstrumentsEnvelope(RestResponse { code, msg, data }))
    }

    fn extract(self) -> Result<Vec<Instrument>, RestError> {
        self.0.extract()
    }
}

struct GetInstruments {
    inst_type: &'static str,
}

impl Request for GetInstruments {
    type Response = InstrumentsEnvelope;

    fn method() -> RequestMethod {
        RequestMethod::Get
    }

    fn path() -> &'static str {
        "public/instruments"
    }

    fn in_uri() -> bool {
        true
    }

    fn to_query(&self) -> Result<String, String> {
        Ok(format!("instType={}", self.inst_type))
    }

    fn to_json(&self) -> Result<String, String> {
        Ok(format!("{{\"instType\":\"{}\"}}", self.inst_type))
    }
}

struct PlaceOrder {
    px: u64,
}

impl Request for PlaceOrder {
    type Response = InstrumentsEnvelope;

    fn method() -> RequestMethod {
        RequestMethod::Post
    }

    fn path() -> &'static str {
        "trade/order"
    }

    fn in_uri() -> bool {
        false
    }

    fn to_query(&self) -> Result<String, String> {
        Ok(format!("px={}", self.px))
    }

    fn to_json(&self) -> Result<String, String> {
        Ok(format!("{{\"px\":{}}}", self.px))
    }
}

struct Unencodable;

impl Request for Unencodable {
    type Response = InstrumentsEnvelope;

    fn method() -> RequestMethod {
        RequestMethod::Get
    }

    fn path() -> &'static str {
        "public/instruments"
    }

    fn in_uri() -> bool {
        true
    }

    fn to_query(&self) -> Result<String, String> {
        Err("cannot serialize".to_string())
    }

    fn to_json(&self) -> Result<String, String> {
        Err("cannot serialize".to_string())
    }
}

struct JsonHook;

impl HeaderHook for JsonHook {
    fn apply(&self, b: RestHeaderBuilder) -> RestHeaderBuilder {
        let mut b = b;
        b.with("content-type", "text/plain");
        b.content_type("application/json");
        b
    }
}

#[test]
fn uri_mode_resolves_query_and_sends_empty_body() {
    let client: RestClient<NoHook> = RestClient::new("https://example.com/api/v5/".to_string());
    let prepared = client
        .prepare(&GetInstruments { inst_type: "SPOT" })
        .expect("prepare must succeed");
    assert_eq!(
        prepared.url,
        "https://example.com/api/v5/public/instruments?instType=SPOT"
    );
    assert_eq!(prepared.body, "");
    assert!(matches!(prepared.method, RequestMethod::Get));
    assert!(prepared.headers.is_empty());
}

#[test]
fn body_mode_sends_json_and_no_query() {
    let client: RestClient<NoHook> = RestClient::new("https://example.com/api/v5/".to_string());
    let prepared = client.prepare(&PlaceOrder { px: 7 }).expect("prepare must succeed");
    assert_eq!(prepared.url, "https://example.com/api/v5/trade/order");
    assert_eq!(prepared.body, "{\"px\":7}");
    assert!(matches!(prepared.method, RequestMethod::Post));
}

#[test]
fn hook_headers_reach_the_prepared_request() {
    let mut client: RestClient<JsonHook> =
        RestClient::new("https://example.com/api/v5/".to_string());
    client.header_builder(JsonHook);
    let prepared = client
        .prepare(&GetInstruments { inst_type: "SPOT" })
        .expect("prepare must succeed");
    assert_eq!(
        prepared.headers,
        vec![("content-type".to_string(), "application/json".to_string())]
    );
}

#[test]
fn registered_identity_hook_changes_nothing() {
    let mut client: RestClient<NoHook> =
        RestClient::new("https://example.com/api/v5/".to_string());
    client.header_builder(NoHook);
    let prepared = client
        .prepare(&GetInstruments { inst_type: "SPOT" })
        .expect("prepare must succeed");
    assert!(prepared.headers.is_empty());
    assert_eq!(
        prepared.url,
        "https://example.com/api/v5/public/instruments?instType=SPOT"
    );
}

#[test]
fn encoding_failure_is_an_encode_error() {
    let client: RestClient<NoHook> = RestClient::new("https://example.com/api/v5/".to_string());
    let r = client.prepare(&Unencodable);
    match r {
        Err(RestError::Encode { message }) => assert_eq!(message, "cannot serialize"),
        other => panic!("expected an encode error, got {:?}", other.map(|p| p.url)),
    }
}

#[test]
fn bad_host_is_a_url_error() {
    let client: RestClient<NoHook> = RestClient::new("not a url".to_string());
    let r = client.prepare(&GetInstruments { inst_type: "SPOT" });
    assert!(matches!(r, Err(RestError::Url { .. })));
}

#[test]
fn failure_status_never_reaches_extraction() {
    // The body is a perfectly valid success envelope; with a failure status
    // it must not be parsed, and the status must be carried in the error.
    let body = b"{\"code\":\"0\",\"data\":[{\"instType\":\"SPOT\",\"instId\":\"BTC-USDT\"}]}";
    let r = complete::<InstrumentsEnvelope>(404, body);
    match r {
        Err(RestError::Http { status, message }) => {
            assert_eq!(status, 404);
            assert_eq!(message, "http status 404");
        }
        other => panic!("expected an http error, got {:?}", other.map(|_| ())),
    }
}

#[test]
fn success_envelope_yields_payload() {
    let body = b"{\"code\":\"0\",\"data\":[{\"instType\":\"SPOT\",\"instId\":\"BTC-USDT\"}]}";
    let r = complete::<InstrumentsEnvelope>(200, body);
    let data = r.expect("extraction must succeed");
    assert_eq!(
        data,
        vec![Instrument { inst_type: "SPOT".to_string(), inst_id: "BTC-USDT".to_string() }]
    );
}

#[test]
fn failure_envelope_yields_its_message() {
    let body = b"{\"code\":\"50001\",\"msg\":\"rate limit exceeded\"}";
    let r = complete::<InstrumentsEnvelope>(200, body);
    match r {
        Err(RestError::Application { message }) => assert_eq!(message, "rate limit exceeded"),
        other => panic!("expected an application error, got {:?}", other.map(|_| ())),
    }
}

#[test]
fn success_envelope_without_data_is_an_application_error() {
    let body = b"{\"code\":\"0\"}";
    let r = complete::<InstrumentsEnvelope>(200, body);
    match r {
        Err(RestError::Application { message }) => assert_eq!(message, "no data"),
        other => panic!("expected an application error, got {:?}", other.map(|_| ())),
    }
}

#[test]
fn failure_envelope_without_message_names_its_code() {
    let body = b"{\"code\":\"50001\"}";
    let r = complete::<InstrumentsEnvelope>(200, body);
    match r {
        Err(RestError::Application { message }) => assert_eq!(message, "error code: 50001"),
        other => panic!("expected an application error, got {:?}", other.map(|_| ())),
    }
}

#[test]
fn malformed_body_is_a_deserialize_error() {
    let r = complete::<InstrumentsEnvelope>(200, b"not json at all");
    assert!(matches!(r, Err(RestError::Deserialize { .. })));
}

#[test]
fn extraction_round_trips_payload_values() {
    let env = RestResponse { code: 0, msg: None, data: Some(vec![3u64, 5u64]) };
    assert_eq!(env.extract().expect("payload expected"), vec![3u64, 5u64]);
}

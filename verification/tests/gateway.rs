use braintree::transaction;
use braintree::Braintree;
use braintree::Environment;
use braintree::Error;
use braintree::HttpResponse;
use braintree::Method;

fn bt_sandbox() -> Braintree {
    Braintree::new(
        Environment::Sandbox,
        "mid".to_string(),
        "user".to_string(),
        "pass".to_string(),
    )
}

fn gzip(bytes: &[u8]) -> Vec<u8> {
    let mut enc = libflate::gzip::Encoder::new(Vec::new()).unwrap();
    std::io::Write::write_all(&mut enc, bytes).unwrap();
    enc.finish().into_result().unwrap()
}

const TX_BODY: &str = "<transaction><id>t1</id><amount>10.00</amount>\
                       <status>settled</status></transaction>";

fn tx_body() -> Vec<u8> {
    TX_BODY.as_bytes().to_vec()
}

#[test]
fn base_urls() {
    assert_eq!(
        Environment::Sandbox.base_url(),
        "https://sandbox.braintreegateway.com"
    );
    assert_eq!(
        Environment::Production.base_url(),
        "https://www.braintreegateway.com"
    );
}

#[test]
fn request_building_attaches_everything() {
    let bt = bt_sandbox();
    let g = bt.transaction();
    let req = transaction::Request {
        amount: Some("10.00".to_string()),
        ..Default::default()
    };
    let wire = g.create_request(&req);
    assert_eq!(wire.method, Method::Post);
    assert_eq!(
        wire.url,
        "https://sandbox.braintreegateway.com/merchants/mid/transactions"
    );
    let headers: Vec<(String, String)> = wire.headers;
    assert_eq!(headers[0], ("Content-Type".into(), "application/xml".into()));
    assert_eq!(headers[1], ("Accept".into(), "application/xml".into()));
    assert_eq!(headers[2], ("Accept-Encoding".into(), "gzip".into()));
    assert_eq!(headers[3], ("User-Agent".into(), "Braintree Rust 0.1.0".into()));
    // "user:pass" in standard base64.
    assert_eq!(headers[4], ("Authorization".into(), "Basic dXNlcjpwYXNz".into()));
    assert_eq!(headers[5], ("X-ApiVersion".into(), "4".into()));
    assert_eq!(
        wire.body.as_deref(),
        Some("<transaction><amount>10.00</amount></transaction>".as_bytes())
    );
}

#[test]
fn created_status_with_success_body_decodes() {
    let bt = bt_sandbox();
    let g = bt.transaction();
    let resp = HttpResponse {
        status: 201,
        content_encoding: None,
        body: tx_body(),
    };
    let t = g.create_response(resp).expect("created response should decode");
    assert_eq!(t.id, "t1");
    assert_eq!(t.amount, "10.00");
    assert_eq!(t.status, "settled");
}

#[test]
fn other_status_yields_api_error_with_message() {
    let bt = bt_sandbox();
    let g = bt.transaction();
    let resp = HttpResponse {
        status: 422,
        content_encoding: None,
        body: b"<api-error-response><message>Amount is required.</message></api-error-response>"
            .to_vec(),
    };
    match g.create_response(resp) {
        Err(Error::Api(ae)) => assert_eq!(ae.message, "Amount is required."),
        other => panic!("expected an API error, got {:?}", other),
    }
}

#[test]
fn sandbox_guard_blocks_production_settle() {
    let prod = Braintree::new(
        Environment::Production,
        "mid".to_string(),
        "user".to_string(),
        "pass".to_string(),
    );
    match prod.testing().settle_request("t1") {
        Err(Error::TestOperationInProduction) => {},
        other => panic!("expected the test-operation guard, got {:?}", other),
    }
    let sandbox = bt_sandbox();
    let wire = sandbox
        .testing()
        .settle_request("t1")
        .expect("sandbox settle should build a request");
    assert_eq!(wire.method, Method::Put);
    assert_eq!(
        wire.url,
        "https://sandbox.braintreegateway.com/merchants/mid/transactions/t1/settle"
    );
}

#[test]
fn gzip_response_is_transparently_decompressed() {
    let bt = bt_sandbox();
    let g = bt.transaction();
    let resp = HttpResponse {
        status: 200,
        content_encoding: Some("gzip".to_string()),
        body: gzip(&tx_body()),
    };
    let t = g.find_response(resp).expect("gzip response should decode");
    assert_eq!(t.id, "t1");
}

#[test]
fn unrecognized_encoding_is_refused() {
    let bt = bt_sandbox();
    let g = bt.transaction();
    let resp = HttpResponse {
        status: 200,
        content_encoding: Some("br".to_string()),
        body: tx_body(),
    };
    assert!(matches!(
        g.find_response(resp),
        Err(Error::UnsupportedEncoding)
    ));
}

#[test]
fn corrupt_gzip_is_a_transport_error() {
    let bt = bt_sandbox();
    let g = bt.transaction();
    let resp = HttpResponse {
        status: 200,
        content_encoding: Some("gzip".to_string()),
        body: vec![1, 2, 3, 4],
    };
    assert!(matches!(g.find_response(resp), Err(Error::Http(_))));
}

#[test]
fn invalid_utf8_body_is_malformed() {
    let bt = bt_sandbox();
    let g = bt.transaction();
    let resp = HttpResponse {
        status: 200,
        content_encoding: None,
        body: vec![0xff, 0xfe, 0x00],
    };
    assert!(matches!(g.find_response(resp), Err(Error::MalformedDocument)));
}

#[test]
fn status_paths_and_verbs() {
    let bt = bt_sandbox();
    let g = bt.transaction();
    let base = "https://sandbox.braintreegateway.com/merchants/mid/transactions/t1";
    let w = g.submit_for_settlement_request("t1");
    assert_eq!(w.method, Method::Put);
    assert_eq!(w.url, format!("{}/submit_for_settlement", base));
    let w = g.void_request("t1");
    assert_eq!(w.method, Method::Put);
    assert_eq!(w.url, format!("{}/void", base));
    let w = g.refund_request("t1");
    assert_eq!(w.method, Method::Post);
    assert_eq!(w.url, format!("{}/refund", base));
    let w = g.find_request("t1");
    assert_eq!(w.method, Method::Get);
    assert_eq!(w.url, base);
}

#[test]
fn refund_accepts_both_success_statuses() {
    let bt = bt_sandbox();
    let g = bt.transaction();
    for status in [200u16, 201u16] {
        let resp = HttpResponse {
            status,
            content_encoding: None,
            body: tx_body(),
        };
        assert!(g.refund_response(resp).is_ok());
    }
    let resp = HttpResponse {
        status: 404,
        content_encoding: None,
        body: b"<api-error-response><message>not found</message></api-error-response>".to_vec(),
    };
    assert!(g.refund_response(resp).is_err());
}

#[test]
fn customer_and_client_token_gateways_branch_on_status() {
    let bt = bt_sandbox();
    let resp = HttpResponse {
        status: 500,
        content_encoding: None,
        body: b"<api-error-response><message>boom</message></api-error-response>".to_vec(),
    };
    match bt.customer().generate_response(resp) {
        Err(Error::Api(ae)) => assert_eq!(ae.message, "boom"),
        other => panic!("expected an API error, got {:?}", other),
    }
    let ok = HttpResponse {
        status: 201,
        content_encoding: None,
        body: b"<client-token><value>abc</value></client-token>".to_vec(),
    };
    let t = bt.client_token().generate_response(ok).unwrap();
    assert_eq!(t.value, "abc");
}

#[test]
fn api_key_derives_stable_authorization() {
    let k = braintree::ApiKey::new(
        Environment::Sandbox,
        "mid".to_string(),
        "user".to_string(),
        "pass".to_string(),
    );
    assert_eq!(k.environment(), Environment::Sandbox);
    assert_eq!(k.merchant_id(), "mid");
    assert_eq!(k.authorization_header(), "Basic dXNlcjpwYXNz");
    assert_eq!(k.authorization_header(), "Basic dXNlcjpwYXNz");
}

#[test]
fn absent_encoding_passes_body_through() {
    let body = b"<a></a>".to_vec();
    let out = braintree::normalize_body(&None, body.clone()).unwrap();
    assert_eq!(out, body);
}

#[test]
fn created_customer_response_round_trips() {
    let bt = bt_sandbox();
    let c = braintree::Customer {
        first_name: Some("Ada".to_string()),
        custom_fields: Some(vec![("color".to_string(), "blue".to_string())]),
        ..Default::default()
    };
    let resp = HttpResponse {
        status: 201,
        content_encoding: None,
        body: c.to_xml(None).into_bytes(),
    };
    let d = bt
        .customer()
        .generate_response(resp)
        .expect("created customer response should decode");
    assert_eq!(d.first_name.as_deref(), Some("Ada"));
    assert_eq!(d.email, None);
    assert_eq!(
        d.custom_fields,
        Some(vec![("color".to_string(), "blue".to_string())])
    );
}

use braintree::client_token;
use braintree::parse_document;
use braintree::subscription;
use braintree::transaction;
use braintree::Address;
use braintree::CreditCard;
use braintree::Customer;
use braintree::Element;
use braintree::Error;

fn full_address() -> Address {
    Address {
        company: Some("Acme".to_string()),
        country_code_alpha2: Some("US".to_string()),
        country_code_alpha3: Some("USA".to_string()),
        country_code_numeric: Some("840".to_string()),
        country_name: Some("United States".to_string()),
        extended_address: Some("Suite 4".to_string()),
        first_name: Some("Ada".to_string()),
        last_name: Some("Lovelace".to_string()),
        locality: Some("Chicago".to_string()),
        postal_code: Some("60622".to_string()),
        region: Some("IL".to_string()),
        street_address: Some("1 Main St".to_string()),
    }
}

#[test]
fn address_round_trip_fully_populated() {
    let a = full_address();
    let doc = a.to_xml(None);
    let el = parse_document(&doc).expect("encoded address should parse");
    let b = Address::from_element(&el);
    assert_eq!(b.company, a.company);
    assert_eq!(b.country_code_alpha2, a.country_code_alpha2);
    assert_eq!(b.country_code_alpha3, a.country_code_alpha3);
    assert_eq!(b.country_code_numeric, a.country_code_numeric);
    assert_eq!(b.country_name, a.country_name);
    assert_eq!(b.extended_address, a.extended_address);
    assert_eq!(b.first_name, a.first_name);
    assert_eq!(b.last_name, a.last_name);
    assert_eq!(b.locality, a.locality);
    assert_eq!(b.postal_code, a.postal_code);
    assert_eq!(b.region, a.region);
    assert_eq!(b.street_address, a.street_address);
}

#[test]
fn absent_fields_emit_no_elements() {
    let a = Address {
        company: Some("Acme".to_string()),
        ..Default::default()
    };
    assert_eq!(a.to_xml(None), "<address><company>Acme</company></address>");
    let empty = Address::default();
    assert_eq!(empty.to_xml(None), "<address></address>");
}

#[test]
fn escaping_round_trips_markup_characters() {
    let raw = "a<b>&c\"'d";
    let a = Address {
        company: Some(raw.to_string()),
        ..Default::default()
    };
    let doc = a.to_xml(None);
    assert_eq!(
        doc,
        "<address><company>a&lt;b&gt;&amp;c&quot;&apos;d</company></address>"
    );
    let el = parse_document(&doc).expect("escaped document should parse");
    let child = el.find("company").expect("company element present");
    assert_eq!(child.text, raw);
}

#[test]
fn transaction_request_scenario() {
    let req = transaction::Request {
        amount: Some("10.00".to_string()),
        credit_card: Some(CreditCard {
            number: Some("4111111111111111".to_string()),
            expiration_date: Some("10/20".to_string()),
            ..Default::default()
        }),
        options: Some(transaction::Options {
            submit_for_settlement: Some(true),
        }),
    };
    assert_eq!(
        req.to_xml(None),
        "<transaction><amount>10.00</amount><credit-card><number>4111111111111111</number>\
         <expiration-date>10/20</expiration-date></credit-card><options>\
         <submit-for-settlement type=\"boolean\">true</submit-for-settlement>\
         </options></transaction>"
    );
}

#[test]
fn credit_card_encodes_under_custom_name() {
    let cc = CreditCard {
        number: Some("4111111111111111".to_string()),
        billing_address: Some(Address {
            postal_code: Some("60622".to_string()),
            ..Default::default()
        }),
        ..Default::default()
    };
    assert_eq!(
        cc.to_xml(Some("card")),
        "<card><number>4111111111111111</number><billing-address>\
         <postal-code>60622</postal-code></billing-address></card>"
    );
}

#[test]
fn customer_custom_fields_and_card() {
    let c = Customer {
        first_name: Some("Ada".to_string()),
        credit_card: Some(CreditCard {
            number: Some("4111111111111111".to_string()),
            ..Default::default()
        }),
        custom_fields: Some(vec![
            ("color".to_string(), "blue".to_string()),
            ("size".to_string(), "large".to_string()),
        ]),
        ..Default::default()
    };
    assert_eq!(
        c.to_xml(None),
        "<customer><first-name>Ada</first-name><credit_card>\
         <number>4111111111111111</number></credit_card><custom_fields>\
         <color>blue</color><size>large</size></custom_fields></customer>"
    );
}

#[test]
fn customer_round_trip() {
    let c = Customer {
        company: Some("Acme".to_string()),
        email: Some("ada@example.org".to_string()),
        fax: Some("none".to_string()),
        first_name: Some("Ada".to_string()),
        id: Some("c99".to_string()),
        last_name: Some("Lovelace".to_string()),
        payment_method_nonce: Some("nonce".to_string()),
        phone: Some("555".to_string()),
        website: Some("example.org".to_string()),
        credit_card: Some(CreditCard {
            number: Some("4111111111111111".to_string()),
            customer_id: Some("c99".to_string()),
            billing_address: Some(full_address()),
            ..Default::default()
        }),
        custom_fields: Some(vec![
            ("color".to_string(), "blue".to_string()),
            ("size".to_string(), "large".to_string()),
        ]),
    };
    let doc = c.to_xml(None);
    let el = parse_document(&doc).expect("encoded customer should parse");
    let d = Customer::from_element(&el);
    assert_eq!(d.company, c.company);
    assert_eq!(d.email, c.email);
    assert_eq!(d.fax, c.fax);
    assert_eq!(d.first_name, c.first_name);
    assert_eq!(d.id, c.id);
    assert_eq!(d.last_name, c.last_name);
    assert_eq!(d.payment_method_nonce, c.payment_method_nonce);
    assert_eq!(d.phone, c.phone);
    assert_eq!(d.website, c.website);
    let cc = d.credit_card.expect("nested card decoded");
    assert_eq!(cc.number.as_deref(), Some("4111111111111111"));
    assert_eq!(cc.customer_id.as_deref(), Some("c99"));
    assert_eq!(cc.cvv, None);
    let ba = cc.billing_address.expect("nested billing address decoded");
    assert_eq!(ba.postal_code.as_deref(), Some("60622"));
    assert_eq!(d.custom_fields, c.custom_fields);
}

#[test]
fn credit_card_round_trip_fully_populated() {
    let c = CreditCard {
        cardholder_name: Some("Ada".to_string()),
        cvv: Some("123".to_string()),
        expiration_date: Some("10/20".to_string()),
        expiration_month: Some("10".to_string()),
        expiration_year: Some("2020".to_string()),
        number: Some("4111111111111111".to_string()),
        customer_id: Some("c99".to_string()),
        token: Some("tok".to_string()),
        billing_address: Some(full_address()),
    };
    let doc = c.to_xml(None);
    let el = parse_document(&doc).expect("encoded card should parse");
    let d = CreditCard::from_element(&el);
    assert_eq!(d.cardholder_name, c.cardholder_name);
    assert_eq!(d.cvv, c.cvv);
    assert_eq!(d.expiration_date, c.expiration_date);
    assert_eq!(d.expiration_month, c.expiration_month);
    assert_eq!(d.expiration_year, c.expiration_year);
    assert_eq!(d.number, c.number);
    assert_eq!(d.customer_id, c.customer_id);
    assert_eq!(d.token, c.token);
    let ba = d.billing_address.expect("billing address decoded");
    assert_eq!(ba.company, Some("Acme".to_string()));
}

#[test]
fn partially_populated_records_round_trip() {
    let a = Address {
        locality: Some("Chicago".to_string()),
        ..Default::default()
    };
    let el = parse_document(&a.to_xml(None)).unwrap();
    let b = Address::from_element(&el);
    assert_eq!(b.locality.as_deref(), Some("Chicago"));
    assert_eq!(b.company, None);
    assert_eq!(b.region, None);
}

#[test]
fn decode_missing_field_is_reported() {
    let el = parse_document("<transaction><id>t1</id></transaction>").unwrap();
    match braintree::transaction::Transaction::from_element(&el) {
        Err(Error::MissingField(tag)) => assert_eq!(tag, "amount"),
        other => panic!("expected a missing-field error, got {:?}", other),
    }
}

#[test]
fn malformed_document_is_rejected() {
    assert!(matches!(
        parse_document("<a><b></a>"),
        Err(Error::MalformedDocument)
    ));
    assert!(matches!(parse_document("plain"), Err(Error::MalformedDocument)));
    assert!(matches!(parse_document(""), Err(Error::MalformedDocument)));
}

#[test]
fn subscription_request_and_response() {
    let req = subscription::Request {
        plan_id: Some("gold".to_string()),
        payment_method_token: None,
    };
    assert_eq!(
        req.to_xml(None),
        "<subscription><plan-id>gold</plan-id><options>\
         <start-immediately type=\"boolean\">true</start-immediately>\
         </options></subscription>"
    );
    let doc = "<subscription><id>s1</id><plan-id>gold</plan-id>\
               <payment-method-token>tok</payment-method-token>\
               <status>Active</status>\
               <billing-period-start-date>2020-01-01</billing-period-start-date>\
               <billing-period-end-date>2020-02-01</billing-period-end-date>\
               <created-at>2020-01-01</created-at></subscription>";
    let el = parse_document(&doc).unwrap();
    let s = subscription::Subscription::from_element(&el);
    assert_eq!(s.id.as_deref(), Some("s1"));
    assert_eq!(s.status.as_deref(), Some("Active"));
    let req_el = parse_document(&req.to_xml(None)).unwrap();
    let rt = subscription::Subscription::from_element(&req_el);
    assert_eq!(rt.plan_id.as_deref(), Some("gold"));
    assert_eq!(rt.payment_method_token, None);
    assert_eq!(rt.id, None);
    assert_eq!(rt.status, None);
}

#[test]
fn client_token_request_and_response() {
    let req = client_token::Request { customer_id: None };
    assert_eq!(req.to_xml(None), "<client-token></client-token>");
    let el = parse_document("<client-token><value>abc123</value></client-token>").unwrap();
    let t = client_token::ClientToken::from_element(&el).unwrap();
    assert_eq!(t.value, "abc123");
}

#[test]
fn element_find_returns_first_match() {
    let mut e = Element::node("root");
    e.push_child(Element::leaf("k", "first"));
    e.push_child(Element::leaf("k", "second"));
    let found = e.find("k").expect("child should be found");
    assert_eq!(found.text, "first");
    assert!(e.find("missing").is_none());
}

#[test]
fn typed_leaf_serializes_with_attribute() {
    let e = Element::typed_leaf("flag", "boolean", "true");
    assert_eq!(e.to_markup(), "<flag type=\"boolean\">true</flag>");
}

use cloudflare_ddns::desired::{desired_record, public_ip_from_body, update_comment};
use cloudflare_ddns::model::{CloudflareResultItem, DdnsError, ListRequestResponse, Record, WriteRequestResponse};
use cloudflare_ddns::provider::{
    create_request, list_request, reconcile_listing, record_url, records_url, update_request, write_request, Config,
    Method,
};
use cloudflare_ddns::reconcile::Action;

fn config() -> Config {
    Config {
        zone_id: "zone1".to_string(),
        email: "me@example.com".to_string(),
        api_key: "key123".to_string(),
        record_name: "home.example.com".to_string(),
    }
}

fn stored(content: &str, id: &str) -> Record {
    Record {
        content: content.to_string(),
        name: "home.example.com".to_string(),
        type_: "A".to_string(),
        comment: None,
        id: Some(id.to_string()),
    }
}

fn item(code: u32, message: &str) -> CloudflareResultItem {
    CloudflareResultItem { code, message: message.to_string() }
}

#[test]
fn urls_are_exact() {
    assert_eq!(records_url("zone1"), "https://api.cloudflare.com/client/v4/zones/zone1/dns_records");
    assert_eq!(
        record_url("zone1", "abc"),
        "https://api.cloudflare.com/client/v4/zones/zone1/dns_records/abc"
    );
}

#[test]
fn list_request_is_authenticated_get() {
    let r = list_request(&config());
    assert_eq!(r.method, Method::Get);
    assert_eq!(r.url, "https://api.cloudflare.com/client/v4/zones/zone1/dns_records");
    assert_eq!(r.email, "me@example.com");
    assert_eq!(r.api_key, "key123");
    assert!(r.body.is_none());
}

#[test]
fn create_request_never_sends_id() {
    let r = create_request(&config(), stored("1.2.3.4", "abc"));
    assert_eq!(r.method, Method::Post);
    assert_eq!(r.url, "https://api.cloudflare.com/client/v4/zones/zone1/dns_records");
    let body = r.body.unwrap();
    assert!(body.id.is_none());
    assert_eq!(body.content, "1.2.3.4");
}

#[test]
fn update_request_addresses_record() {
    let r = update_request(&config(), "abc", desired_record("1.2.3.4".to_string(), "home.example.com", "now"));
    assert_eq!(r.method, Method::Put);
    assert_eq!(r.url, "https://api.cloudflare.com/client/v4/zones/zone1/dns_records/abc");
    assert_eq!(r.email, "me@example.com");
    assert_eq!(r.api_key, "key123");
    assert_eq!(r.body.unwrap().content, "1.2.3.4");
}

#[test]
fn write_request_follows_action() {
    assert!(write_request(&config(), Action::Skip).is_none());
    let c = write_request(&config(), Action::Create(stored("1.2.3.4", "x"))).unwrap();
    assert_eq!(c.method, Method::Post);
    let u = write_request(&config(), Action::Update("abc".to_string(), stored("1.2.3.4", "x"))).unwrap();
    assert_eq!(u.method, Method::Put);
    assert!(u.url.ends_with("/dns_records/abc"));
}

#[test]
fn failed_listing_never_yields_result() {
    let listing = ListRequestResponse {
        result: Some(vec![stored("1.2.3.4", "abc")]),
        errors: vec![item(1000, "bad")],
        messages: None,
        success: false,
    };
    match listing.into_records() {
        Err(DdnsError::Provider(errors)) => assert_eq!(errors[0].message, "bad"),
        other => panic!("expected a provider error, got {:?}", other),
    }
}

#[test]
fn successful_listing_yields_records() {
    let listing = ListRequestResponse {
        result: Some(vec![stored("1.2.3.4", "abc")]),
        errors: vec![],
        messages: Some(vec![]),
        success: true,
    };
    assert!(!listing.has_messages());
    let records = listing.into_records().unwrap();
    assert_eq!(records.len(), 1);
    assert_eq!(records[0].id.as_deref(), Some("abc"));
}

#[test]
fn successful_listing_without_result_is_an_error() {
    let listing = ListRequestResponse { result: None, errors: vec![], messages: None, success: true };
    assert!(matches!(listing.into_records(), Err(DdnsError::MissingResult)));
}

#[test]
fn listing_reconciles_its_records() {
    let listing = ListRequestResponse {
        result: Some(vec![stored("1.2.3.4", "abc")]),
        errors: vec![],
        messages: Some(vec![item(1, "note")]),
        success: true,
    };
    assert!(listing.has_messages());
    let d = desired_record("1.2.3.4".to_string(), "home.example.com", "t");
    assert!(matches!(reconcile_listing(d, listing).unwrap(), Action::Skip));
}

#[test]
fn write_outcome_follows_success_flag() {
    let ok = WriteRequestResponse { result: None, errors: vec![], messages: None, success: true };
    assert!(!ok.has_messages());
    assert!(ok.into_outcome().is_ok());
    let failed = WriteRequestResponse {
        result: Some(stored("1.2.3.4", "abc")),
        errors: vec![item(81057, "record already exists")],
        messages: Some(vec![item(2, "info")]),
        success: false,
    };
    assert!(failed.has_messages());
    match failed.into_outcome() {
        Err(DdnsError::Provider(errors)) => assert_eq!(errors[0].code, 81057),
        other => panic!("expected a provider error, got {:?}", other),
    }
}

#[test]
fn public_ip_is_trimmed() {
    assert_eq!(public_ip_from_body("  1.2.3.4\n"), "1.2.3.4");
    assert_eq!(public_ip_from_body("1.2.3.4"), "1.2.3.4");
    assert_eq!(public_ip_from_body(""), "");
}

#[test]
fn desired_record_is_an_a_record() {
    let r = desired_record("1.2.3.4".to_string(), "home.example.com", "2024-01-01 00:00:00 UTC");
    assert_eq!(r.content, "1.2.3.4");
    assert_eq!(r.name, "home.example.com");
    assert_eq!(r.type_, "A");
    assert_eq!(r.comment.as_deref(), Some("DDNS Last update at 2024-01-01 00:00:00 UTC"));
    assert!(r.id.is_none());
    assert_eq!(update_comment("x"), "DDNS Last update at x");
}

#[test]
fn desired_record_now_is_marked() {
    let r = cloudflare_ddns::desired::desired_record_now("1.2.3.4".to_string(), "home.example.com");
    assert!(r.comment.unwrap().starts_with("DDNS Last update at 2"));
    assert_eq!(r.type_, "A");
}

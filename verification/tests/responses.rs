//! Response evaluation: rate limits, in-band errors, record decoding and
//! batch ordering, on simulated exchanges.

use ip_api_client::evaluate_batch_response;
use ip_api_client::evaluate_single_response;
use ip_api_client::BodyOutcome;
use ip_api_client::IpApiError;
use ip_api_client::TtlHeader;

fn text(body: &str) -> BodyOutcome {
    BodyOutcome::Text(body.to_string())
}

#[test]
fn rate_limited_with_ttl_header() {
    let r = evaluate_single_response(429, TtlHeader::Value("7".to_string()), text("{}"));
    assert!(matches!(r, Err(IpApiError::RateLimit(7))));
}

#[test]
fn rate_limited_without_ttl_header_is_unexpected() {
    let r = evaluate_single_response(429, TtlHeader::Absent, text("{}"));
    match r {
        Err(IpApiError::UnexpectedError(Some(d))) => {
            assert_eq!(d, "Failed to get `X-Ttl` header from the response");
        },
        other => panic!("expected an unexpected error, got {:?}", other),
    }
}

#[test]
fn rate_limited_with_unreadable_header_is_unexpected() {
    let r = evaluate_single_response(429, TtlHeader::NotText, text("{}"));
    match r {
        Err(IpApiError::UnexpectedError(Some(d))) => {
            assert_eq!(d, "Failed to convert `X-Ttl` header from the response to &str");
        },
        other => panic!("expected an unexpected error, got {:?}", other),
    }
}

#[test]
fn rate_limited_with_unparseable_header_is_unexpected() {
    for bad in ["abc", "", "300", "-1", "7 seconds"] {
        let r = evaluate_single_response(429, TtlHeader::Value(bad.to_string()), text("{}"));
        match r {
            Err(IpApiError::UnexpectedError(Some(d))) => {
                assert_eq!(d, "Failed to parse `X-Ttl` header from the response");
            },
            other => panic!("expected an unexpected error for {:?}, got {:?}", bad, other),
        }
    }
}

#[test]
fn rate_limited_header_accepts_plus_sign_like_std() {
    let r = evaluate_single_response(429, TtlHeader::Value("+9".to_string()), text("{}"));
    assert!(matches!(r, Err(IpApiError::RateLimit(9))));
}

#[test]
fn rate_limit_outranks_body_handling() {
    // A 429 decides the call before the body is ever looked at.
    let r = evaluate_single_response(429, TtlHeader::Value("5".to_string()), BodyOutcome::Missing);
    assert!(matches!(r, Err(IpApiError::RateLimit(5))));
}

#[test]
fn message_outranks_record_decode() {
    // An in-band message makes the whole record an error payload, even if
    // the rest of it would decode.
    let body = r#"{"message":"reserved range","query":"127.0.0.1"}"#;
    let r = evaluate_single_response(200, TtlHeader::Absent, text(body));
    assert!(matches!(r, Err(IpApiError::ReservedRange)));
}

#[test]
fn invalid_query_message() {
    let body = r#"{"status":"fail","message":"invalid query","query":"1.1.1.one"}"#;
    let r = evaluate_single_response(200, TtlHeader::Absent, text(body));
    assert!(matches!(r, Err(IpApiError::InvalidQuery)));
}

#[test]
fn private_range_message() {
    let body = r#"{"status":"fail","message":"private range","query":"10.0.0.1"}"#;
    let r = evaluate_single_response(200, TtlHeader::Absent, text(body));
    assert!(matches!(r, Err(IpApiError::PrivateRange)));
}

#[test]
fn reserved_range_message() {
    let body = r#"{"status":"fail","message":"reserved range","query":"127.0.0.1"}"#;
    let r = evaluate_single_response(200, TtlHeader::Absent, text(body));
    assert!(matches!(r, Err(IpApiError::ReservedRange)));
}

#[test]
fn unknown_message_is_unexpected_with_detail() {
    let body = r#"{"message":"quota exceeded"}"#;
    let r = evaluate_single_response(200, TtlHeader::Absent, text(body));
    match r {
        Err(IpApiError::UnexpectedError(Some(d))) => assert_eq!(d, "quota exceeded"),
        other => panic!("expected an unexpected error, got {:?}", other),
    }
}

#[test]
fn missing_body_is_unexpected() {
    let r = evaluate_single_response(200, TtlHeader::Absent, BodyOutcome::Missing);
    match r {
        Err(IpApiError::UnexpectedError(Some(d))) => assert_eq!(d, "Response is empty"),
        other => panic!("expected an unexpected error, got {:?}", other),
    }
}

#[test]
fn unreadable_body_is_unexpected() {
    let r = evaluate_single_response(200, TtlHeader::Absent, BodyOutcome::Unreadable);
    match r {
        Err(IpApiError::UnexpectedError(Some(d))) => {
            assert_eq!(d, "Failed to retrieve body from the response");
        },
        other => panic!("expected an unexpected error, got {:?}", other),
    }
}

#[test]
fn non_text_body_is_unexpected() {
    let r = evaluate_single_response(200, TtlHeader::Absent, BodyOutcome::NotText);
    match r {
        Err(IpApiError::UnexpectedError(Some(d))) => {
            assert_eq!(d, "Failed to convert body from the response to String");
        },
        other => panic!("expected an unexpected error, got {:?}", other),
    }
}

#[test]
fn malformed_json_body_is_unexpected() {
    let r = evaluate_single_response(200, TtlHeader::Absent, text("{oops"));
    match r {
        Err(IpApiError::UnexpectedError(Some(d))) => {
            assert_eq!(d, "Failed to parse body from the response");
        },
        other => panic!("expected an unexpected error, got {:?}", other),
    }
}

#[test]
fn non_object_json_body_is_unexpected() {
    let r = evaluate_single_response(200, TtlHeader::Absent, text("[1,2]"));
    assert!(matches!(r, Err(IpApiError::UnexpectedError(Some(_)))));
}

#[test]
fn query_echo_alone() {
    let r = evaluate_single_response(200, TtlHeader::Absent, text(r#"{"query":"1.1.1.1"}"#));
    let d = r.expect("a record with only the query echo decodes");
    assert_eq!(d.query, Some("1.1.1.1".to_string()));
    assert_eq!(d.continent, None);
    assert_eq!(d.continent_code, None);
    assert_eq!(d.country, None);
    assert_eq!(d.country_code, None);
    assert_eq!(d.region, None);
    assert_eq!(d.region_name, None);
    assert_eq!(d.city, None);
    assert_eq!(d.district, None);
    assert_eq!(d.zip, None);
    assert_eq!(d.lat, None);
    assert_eq!(d.lon, None);
    assert_eq!(d.timezone, None);
    assert_eq!(d.offset, None);
    assert_eq!(d.currency, None);
    assert_eq!(d.isp, None);
    assert_eq!(d.org, None);
    assert_eq!(d.as_field, None);
    assert_eq!(d.asname, None);
    assert_eq!(d.reverse, None);
    assert_eq!(d.mobile, None);
    assert_eq!(d.proxy, None);
    assert_eq!(d.hosting, None);
}

#[test]
fn empty_object_has_all_attributes_absent() {
    let r = evaluate_single_response(200, TtlHeader::Absent, text("{}"));
    let d = r.expect("an empty record decodes");
    assert_eq!(d.continent, None);
    assert_eq!(d.continent_code, None);
    assert_eq!(d.country, None);
    assert_eq!(d.country_code, None);
    assert_eq!(d.region, None);
    assert_eq!(d.region_name, None);
    assert_eq!(d.city, None);
    assert_eq!(d.district, None);
    assert_eq!(d.zip, None);
    assert_eq!(d.lat, None);
    assert_eq!(d.lon, None);
    assert_eq!(d.timezone, None);
    assert_eq!(d.offset, None);
    assert_eq!(d.currency, None);
    assert_eq!(d.isp, None);
    assert_eq!(d.org, None);
    assert_eq!(d.as_field, None);
    assert_eq!(d.asname, None);
    assert_eq!(d.reverse, None);
    assert_eq!(d.mobile, None);
    assert_eq!(d.proxy, None);
    assert_eq!(d.hosting, None);
    assert_eq!(d.query, None);
}

#[test]
fn full_record_decodes() {
    let body = r#"{"continent":"Oceania","continentCode":"OC","country":"Australia","countryCode":"AU","region":"QLD","regionName":"Queensland","city":"South Brisbane","district":"","zip":"4101","lat":-27.4766,"lon":153.0166,"timezone":"Australia/Brisbane","offset":36000,"currency":"AUD","isp":"Cloudflare, Inc","org":"APNIC and Cloudflare DNS Resolver project","as":"AS13335 Cloudflare, Inc.","asname":"CLOUDFLARENET","reverse":"one.one.one.one","mobile":false,"proxy":false,"hosting":true,"query":"1.1.1.1"}"#;
    let r = evaluate_single_response(200, TtlHeader::Absent, text(body));
    let d = r.expect("a full record decodes");
    assert_eq!(d.continent, Some("Oceania".to_string()));
    assert_eq!(d.continent_code, Some("OC".to_string()));
    assert_eq!(d.country, Some("Australia".to_string()));
    assert_eq!(d.country_code, Some("AU".to_string()));
    assert_eq!(d.region, Some("QLD".to_string()));
    assert_eq!(d.region_name, Some("Queensland".to_string()));
    assert_eq!(d.city, Some("South Brisbane".to_string()));
    assert_eq!(d.district, Some("".to_string()));
    assert_eq!(d.zip, Some("4101".to_string()));
    assert_eq!(d.lat, Some("-27.4766".to_string()));
    assert_eq!(d.lon, Some("153.0166".to_string()));
    assert_eq!(d.timezone, Some("Australia/Brisbane".to_string()));
    assert_eq!(d.offset, Some(36000));
    assert_eq!(d.currency, Some("AUD".to_string()));
    assert_eq!(d.isp, Some("Cloudflare, Inc".to_string()));
    assert_eq!(d.org, Some("APNIC and Cloudflare DNS Resolver project".to_string()));
    assert_eq!(d.as_field, Some("AS13335 Cloudflare, Inc.".to_string()));
    assert_eq!(d.asname, Some("CLOUDFLARENET".to_string()));
    assert_eq!(d.reverse, Some("one.one.one.one".to_string()));
    assert_eq!(d.mobile, Some(false));
    assert_eq!(d.proxy, Some(false));
    assert_eq!(d.hosting, Some(true));
    assert_eq!(d.query, Some("1.1.1.1".to_string()));
}

#[test]
fn empty_message_is_not_an_error() {
    let r = evaluate_single_response(200, TtlHeader::Absent, text(r#"{"message":""}"#));
    assert!(r.is_ok());
}

#[test]
fn offset_outside_i32_range_is_absent() {
    let r = evaluate_single_response(200, TtlHeader::Absent, text(r#"{"offset":4294967296}"#));
    let d = r.expect("the record decodes");
    assert_eq!(d.offset, None);
}

#[test]
fn batch_order_preserved() {
    let body = r#"[{"query":"1.1.1.1"},{"query":"8.8.8.8"}]"#;
    let r = evaluate_batch_response(200, TtlHeader::Absent, text(body));
    let v = r.expect("the batch decodes");
    assert_eq!(v.len(), 2);
    assert_eq!(v[0].query, Some("1.1.1.1".to_string()));
    assert_eq!(v[1].query, Some("8.8.8.8".to_string()));
}

#[test]
fn batch_first_message_wins() {
    let body = r#"[{"query":"8.8.8.8"},{"message":"private range"},{"message":"invalid query"}]"#;
    let r = evaluate_batch_response(200, TtlHeader::Absent, text(body));
    assert!(matches!(r, Err(IpApiError::PrivateRange)));
}

#[test]
fn batch_rate_limited() {
    let r = evaluate_batch_response(429, TtlHeader::Value("3".to_string()), text("[]"));
    assert!(matches!(r, Err(IpApiError::RateLimit(3))));
}

#[test]
fn batch_non_array_body_is_unexpected() {
    let r = evaluate_batch_response(200, TtlHeader::Absent, text("{}"));
    match r {
        Err(IpApiError::UnexpectedError(Some(d))) => {
            assert_eq!(d, "Failed to parse body from the response");
        },
        other => panic!("expected an unexpected error, got {:?}", other),
    }
}

#[test]
fn batch_non_object_element_is_unexpected() {
    let r = evaluate_batch_response(200, TtlHeader::Absent, text(r#"[{"query":"a"},5]"#));
    match r {
        Err(IpApiError::UnexpectedError(Some(d))) => {
            assert_eq!(d, "Failed to parse body from the response");
        },
        other => panic!("expected an unexpected error, got {:?}", other),
    }
}

#[test]
fn batch_of_nothing_is_empty() {
    let r = evaluate_batch_response(200, TtlHeader::Absent, text("[]"));
    let v = r.expect("an empty batch decodes");
    assert!(v.is_empty());
}

#[test]
fn batch_body_encodes_targets() {
    let targets = vec!["1.1.1.1".to_string(), "8.8.8.8".to_string()];
    let body = ip_api_client::batch_request_body(&targets);
    assert_eq!(body, r#"["1.1.1.1","8.8.8.8"]"#);
}

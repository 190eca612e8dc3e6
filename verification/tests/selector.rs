//! The field selector: masks, rendering, languages.

use ip_api_client::generate_empty_config;
use ip_api_client::generate_maximum_config;
use ip_api_client::generate_minimum_config;
use ip_api_client::IpApiLanguage;

#[test]
fn empty_renders_status_bit_only() {
    let uri = generate_empty_config().single_request_uri("1.1.1.1");
    assert_eq!(uri, "http://ip-api.com/json/1.1.1.1?fields=32768");
}

#[test]
fn empty_renders_no_language_suffix() {
    let uri = generate_empty_config().single_request_uri("");
    assert_eq!(uri, "http://ip-api.com/json/?fields=32768");
}

#[test]
fn maximal_renders_sum_of_all_weights() {
    // 32768 plus the 23 attribute weights, each exactly once.
    let uri = generate_maximum_config().single_request_uri("1.1.1.1");
    assert_eq!(uri, "http://ip-api.com/json/1.1.1.1?fields=66830335");
}

#[test]
fn minimal_renders_curated_fields() {
    let uri = generate_minimum_config().single_request_uri("1.1.1.1");
    assert_eq!(uri, "http://ip-api.com/json/1.1.1.1?fields=41976594");
}

#[test]
fn include_then_exclude_restores_mask() {
    let base = generate_empty_config().include_city();
    let before = base.clone().single_request_uri("8.8.8.8");
    let after = base.include_query().exclude_query().single_request_uri("8.8.8.8");
    assert_eq!(before, after);
}

#[test]
fn include_is_idempotent() {
    let once = generate_empty_config().include_currency().single_request_uri("x");
    let twice = generate_empty_config()
        .include_currency()
        .include_currency()
        .single_request_uri("x");
    assert_eq!(once, twice);
}

#[test]
fn exclude_absent_field_is_noop() {
    let plain = generate_empty_config().single_request_uri("x");
    let excluded = generate_empty_config().exclude_lat().single_request_uri("x");
    assert_eq!(plain, excluded);
}

#[test]
fn excluding_everything_leaves_status_bit() {
    let uri = generate_maximum_config()
        .exclude_continent()
        .exclude_continent_code()
        .exclude_country()
        .exclude_country_code()
        .exclude_region()
        .exclude_region_name()
        .exclude_city()
        .exclude_district()
        .exclude_zip()
        .exclude_lat()
        .exclude_lon()
        .exclude_timezone()
        .exclude_offset()
        .exclude_currency()
        .exclude_isp()
        .exclude_org()
        .exclude_as_field()
        .exclude_asname()
        .exclude_reverse()
        .exclude_mobile()
        .exclude_proxy()
        .exclude_hosting()
        .exclude_query()
        .single_request_uri("1.1.1.1");
    assert_eq!(uri, "http://ip-api.com/json/1.1.1.1?fields=32768");
}

#[test]
fn including_everything_matches_maximal() {
    let built = generate_empty_config()
        .include_continent()
        .include_continent_code()
        .include_country()
        .include_country_code()
        .include_region()
        .include_region_name()
        .include_city()
        .include_district()
        .include_zip()
        .include_lat()
        .include_lon()
        .include_timezone()
        .include_offset()
        .include_currency()
        .include_isp()
        .include_org()
        .include_as_field()
        .include_asname()
        .include_reverse()
        .include_mobile()
        .include_proxy()
        .include_hosting()
        .include_query()
        .single_request_uri("1.1.1.1");
    let preset = generate_maximum_config().single_request_uri("1.1.1.1");
    assert_eq!(built, preset);
}

#[test]
fn language_suffix_renders() {
    let de = generate_empty_config()
        .set_language(IpApiLanguage::De)
        .single_request_uri("8.8.8.8");
    assert_eq!(de, "http://ip-api.com/json/8.8.8.8?fields=32768&lang=de");
    let pt = generate_empty_config()
        .set_language(IpApiLanguage::PtBr)
        .single_request_uri("8.8.8.8");
    assert_eq!(pt, "http://ip-api.com/json/8.8.8.8?fields=32768&lang=pt-BR");
    let zh = generate_empty_config()
        .set_language(IpApiLanguage::ZhCn)
        .single_request_uri("8.8.8.8");
    assert_eq!(zh, "http://ip-api.com/json/8.8.8.8?fields=32768&lang=zh-CN");
    let es = generate_empty_config()
        .set_language(IpApiLanguage::Es)
        .single_request_uri("8.8.8.8");
    assert_eq!(es, "http://ip-api.com/json/8.8.8.8?fields=32768&lang=es");
    let fr = generate_empty_config()
        .set_language(IpApiLanguage::Fr)
        .single_request_uri("8.8.8.8");
    assert_eq!(fr, "http://ip-api.com/json/8.8.8.8?fields=32768&lang=fr");
    let ja = generate_empty_config()
        .set_language(IpApiLanguage::Ja)
        .single_request_uri("8.8.8.8");
    assert_eq!(ja, "http://ip-api.com/json/8.8.8.8?fields=32768&lang=ja");
    let ru = generate_empty_config()
        .set_language(IpApiLanguage::Ru)
        .single_request_uri("8.8.8.8");
    assert_eq!(ru, "http://ip-api.com/json/8.8.8.8?fields=32768&lang=ru");
}

#[test]
fn set_language_back_to_english_drops_suffix() {
    let uri = generate_empty_config()
        .set_language(IpApiLanguage::Ru)
        .set_language(IpApiLanguage::En)
        .single_request_uri("8.8.8.8");
    assert_eq!(uri, "http://ip-api.com/json/8.8.8.8?fields=32768");
}

#[test]
fn batch_uri_has_no_target() {
    let uri = generate_minimum_config().batch_request_uri();
    assert_eq!(uri, "http://ip-api.com/batch?fields=41976594");
    let with_lang = generate_empty_config()
        .set_language(IpApiLanguage::De)
        .batch_request_uri();
    assert_eq!(with_lang, "http://ip-api.com/batch?fields=32768&lang=de");
}

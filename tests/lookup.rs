use ipapi::{
    bulk_lookup_result, bulk_url, decode_ip_info, decode_ip_infos, decode_isp, decode_location,
    decode_risk, ip_info_from_body, ip_infos_from_body, join_ips, own_ip_result, own_ip_url,
    single_lookup_result, single_url, IPInfo, ISPInfo, JsonNumber, JsonValue, LookupError, Reply,
    RiskInfo, BASE_URL,
};

fn text(s: &str) -> JsonValue {
    JsonValue::Str(s.to_string())
}

fn object(members: Vec<(&str, JsonValue)>) -> JsonValue {
    JsonValue::Object(members.into_iter().map(|(k, v)| (k.to_string(), v)).collect())
}

fn bare(ip: &str) -> IPInfo {
    IPInfo { ip: ip.to_string(), isp: None, location: None, risk: None }
}

#[test]
fn single_url_appends_the_address() {
    assert_eq!(single_url(BASE_URL, "8.8.8.8"), "https://api.ipquery.io/8.8.8.8");
    assert_eq!(single_url("http://localhost/", "x"), "http://localhost/x");
}

#[test]
fn bulk_url_joins_with_commas_in_order() {
    assert_eq!(bulk_url(BASE_URL, &["8.8.8.8", "1.1.1.1"]), "https://api.ipquery.io/8.8.8.8,1.1.1.1");
    assert_eq!(join_ips(&["a"]), "a");
    assert_eq!(join_ips(&["a", "b", "c"]), "a,b,c");
}

#[test]
fn empty_bulk_targets_the_endpoint_itself() {
    assert_eq!(join_ips(&[]), "");
    assert_eq!(bulk_url(BASE_URL, &[]), BASE_URL);
}

#[test]
fn own_ip_url_is_the_endpoint() {
    assert_eq!(own_ip_url(BASE_URL), "https://api.ipquery.io/");
}

#[test]
fn record_without_optional_members_decodes() {
    let v = object(vec![("ip", text("8.8.8.8"))]);
    assert_eq!(decode_ip_info(&v), Some(bare("8.8.8.8")));
}

#[test]
fn null_members_decode_as_absent() {
    let v = object(vec![
        ("ip", text("8.8.8.8")),
        ("isp", JsonValue::Null),
        ("location", JsonValue::Null),
        ("risk", JsonValue::Null),
    ]);
    assert_eq!(decode_ip_info(&v), Some(bare("8.8.8.8")));
}

#[test]
fn record_without_ip_fails() {
    let v = object(vec![("isp", object(vec![]))]);
    assert_eq!(decode_ip_info(&v), None);
    assert_eq!(ip_info_from_body("{\"isp\": {}}"), Err(LookupError::Decode));
}

#[test]
fn ip_of_wrong_type_fails() {
    assert_eq!(decode_ip_info(&object(vec![("ip", JsonValue::Null)])), None);
    assert_eq!(decode_ip_info(&object(vec![("ip", JsonValue::Bool(true))])), None);
    assert_eq!(decode_ip_info(&text("8.8.8.8")), None);
}

#[test]
fn full_record_decodes() {
    let v = object(vec![
        ("ip", text("1.1.1.1")),
        ("isp", object(vec![("asn", text("AS13335")), ("org", text("Cloudflare")), ("isp", text("Cloudflare, Inc."))])),
        (
            "location",
            object(vec![
                ("country", text("Australia")),
                ("country_code", text("AU")),
                ("latitude", JsonValue::Number(JsonNumber::Decimal("-33.494".to_string()))),
                ("longitude", JsonValue::Number(JsonNumber::Unsigned(143))),
                ("timezone", text("Australia/Sydney")),
            ]),
        ),
        (
            "risk",
            object(vec![
                ("is_vpn", JsonValue::Bool(false)),
                ("is_datacenter", JsonValue::Bool(true)),
                ("risk_score", JsonValue::Number(JsonNumber::Unsigned(100))),
            ]),
        ),
    ]);
    let info = decode_ip_info(&v).unwrap();
    assert_eq!(info.ip, "1.1.1.1");
    assert_eq!(
        info.isp,
        Some(ISPInfo {
            asn: Some("AS13335".to_string()),
            org: Some("Cloudflare".to_string()),
            isp: Some("Cloudflare, Inc.".to_string()),
        })
    );
    let location = info.location.unwrap();
    assert_eq!(location.country_code, Some("AU".to_string()));
    assert_eq!(location.city, None);
    assert_eq!(location.latitude, Some(JsonNumber::Decimal("-33.494".to_string())));
    assert_eq!(location.longitude, Some(JsonNumber::Unsigned(143)));
    assert_eq!(
        info.risk,
        Some(RiskInfo {
            is_mobile: None,
            is_vpn: Some(false),
            is_tor: None,
            is_proxy: None,
            is_datacenter: Some(true),
            risk_score: Some(100),
        })
    );
}

#[test]
fn nested_record_of_wrong_shape_fails_the_whole_record() {
    let v = object(vec![("ip", text("8.8.8.8")), ("isp", text("Google"))]);
    assert_eq!(decode_ip_info(&v), None);
    let v = object(vec![("ip", text("8.8.8.8")), ("risk", object(vec![("is_tor", text("no"))]))]);
    assert_eq!(decode_ip_info(&v), None);
}

#[test]
fn risk_score_must_fit_a_byte() {
    let score = |n: JsonNumber| object(vec![("risk_score", JsonValue::Number(n))]);
    assert_eq!(decode_risk(&score(JsonNumber::Unsigned(255))).unwrap().risk_score, Some(255));
    assert_eq!(decode_risk(&score(JsonNumber::Unsigned(0))).unwrap().risk_score, Some(0));
    assert_eq!(decode_risk(&score(JsonNumber::Unsigned(256))), None);
    assert_eq!(decode_risk(&score(JsonNumber::Negative(-1))), None);
    assert_eq!(decode_risk(&score(JsonNumber::Decimal("50.5".to_string()))), None);
}

#[test]
fn coordinates_accept_any_number() {
    let at = |n: JsonNumber| object(vec![("latitude", JsonValue::Number(n))]);
    assert_eq!(decode_location(&at(JsonNumber::Negative(-12))).unwrap().latitude, Some(JsonNumber::Negative(-12)));
    assert_eq!(decode_location(&object(vec![("latitude", text("12.5"))])), None);
    assert_eq!(decode_location(&JsonValue::Array(vec![])), None);
}

#[test]
fn first_member_with_a_name_wins() {
    let v = object(vec![("asn", text("AS1")), ("asn", text("AS2"))]);
    assert_eq!(decode_isp(&v).unwrap().asn, Some("AS1".to_string()));
}

#[test]
fn bulk_keeps_order_and_length() {
    let v = JsonValue::Array(vec![
        object(vec![("ip", text("8.8.8.8"))]),
        object(vec![("ip", text("1.1.1.1"))]),
    ]);
    let infos = decode_ip_infos(&v).unwrap();
    assert_eq!(infos.len(), 2);
    assert_eq!(infos[0].ip, "8.8.8.8");
    assert_eq!(infos[1].ip, "1.1.1.1");
    assert_eq!(decode_ip_infos(&JsonValue::Array(vec![])), Some(vec![]));
}

#[test]
fn bulk_fails_as_a_whole() {
    let v = JsonValue::Array(vec![object(vec![("ip", text("8.8.8.8"))]), object(vec![])]);
    assert_eq!(decode_ip_infos(&v), None);
    assert_eq!(decode_ip_infos(&object(vec![("ip", text("8.8.8.8"))])), None);
}

#[test]
fn body_is_parsed_then_decoded() {
    let body = "{\"ip\":\"8.8.8.8\",\"risk\":{\"is_tor\":true,\"risk_score\":7}}";
    let info = ip_info_from_body(body).unwrap();
    assert_eq!(info.ip, "8.8.8.8");
    assert_eq!(info.risk.unwrap().risk_score, Some(7));
    assert_eq!(ip_info_from_body("{\"ip\": \"8.8.8.8\"}"), Ok(bare("8.8.8.8")));
}

#[test]
fn body_numbers_keep_their_kind() {
    let body = "{\"ip\":\"x\",\"location\":{\"latitude\":37.751,\"longitude\":-97}}";
    let location = ip_info_from_body(body).unwrap().location.unwrap();
    assert_eq!(location.latitude, Some(JsonNumber::Decimal("37.751".to_string())));
    assert_eq!(location.longitude, Some(JsonNumber::Negative(-97)));
}

#[test]
fn malformed_body_is_a_decode_error() {
    assert_eq!(ip_info_from_body("not json"), Err(LookupError::Decode));
    assert_eq!(ip_info_from_body(""), Err(LookupError::Decode));
    assert_eq!(ip_infos_from_body("[{\"ip\": 1}]"), Err(LookupError::Decode));
}

#[test]
fn bulk_body_is_parsed_in_order() {
    let infos = ip_infos_from_body("[{\"ip\":\"8.8.8.8\"},{\"ip\":\"1.1.1.1\"}]").unwrap();
    assert_eq!(infos, vec![bare("8.8.8.8"), bare("1.1.1.1")]);
}

#[test]
fn unreachable_is_a_network_error() {
    assert_eq!(single_lookup_result(Reply::Unreachable), Err(LookupError::Network));
    assert_eq!(bulk_lookup_result(Reply::Unreachable), Err(LookupError::Network));
    assert_eq!(own_ip_result(Reply::Unreachable), Err(LookupError::Network));
}

#[test]
fn received_bodies_are_settled() {
    assert_eq!(single_lookup_result(Reply::Body("{\"ip\":\"8.8.8.8\"}".to_string())), Ok(bare("8.8.8.8")));
    assert_eq!(single_lookup_result(Reply::Body("<html>".to_string())), Err(LookupError::Decode));
    assert_eq!(bulk_lookup_result(Reply::Body("[]".to_string())), Ok(vec![]));
    assert_eq!(own_ip_result(Reply::Body("203.0.113.7".to_string())), Ok("203.0.113.7".to_string()));
    assert_eq!(own_ip_result(Reply::Body(String::new())), Ok(String::new()));
}

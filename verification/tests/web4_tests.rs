use oracle_web4::aggregate::aggregate_validators;
use oracle_web4::parse::parse_assets;
use oracle_web4::registry::{Contract, TokenConfig};
use oracle_web4::render::index_template;
use oracle_web4::web4::{Web4Error, Web4Request, Web4Response};

const PRICE_URL: &str = "/web4/contract/priceoracle.near/get_price_data";
const ASSETS_URL: &str = "/web4/contract/priceoracle.near/get_assets";

fn request(path: &str, preloads: Option<Vec<(String, Web4Response)>>) -> Web4Request {
    Web4Request {
        account_id: None,
        path: path.to_string(),
        params: None,
        query: None,
        preloads,
    }
}

fn body_resp(bytes: &[u8]) -> Web4Response {
    Web4Response {
        content_type: None,
        status: None,
        body: Some(bytes.to_vec()),
        body_url: None,
        preload_urls: None,
    }
}

fn preloads(price_bytes: &[u8], assets_bytes: &[u8]) -> Vec<(String, Web4Response)> {
    vec![
        (PRICE_URL.to_string(), body_resp(price_bytes)),
        (ASSETS_URL.to_string(), body_resp(assets_bytes)),
    ]
}

fn registry_with_bitcoin() -> Contract {
    let mut c = Contract::new();
    c.add_token_config(
        b"btc.near".to_vec(),
        TokenConfig { token_name: b"Bitcoin".to_vec(), decimals: 6 },
    );
    c
}

fn page_with(price_rows: &str, validator_rows: &str) -> Vec<u8> {
    String::from_utf8(index_template())
        .unwrap()
        .replace("%PRICES%", price_rows)
        .replace("%VALIDATORS%", validator_rows)
        .into_bytes()
}

#[test]
fn phase_a_returns_exactly_the_two_urls_and_no_body() {
    let c = Contract::new();
    let r = c.web4_get(request("/", None), 0).unwrap();
    assert_eq!(r.preload_urls, Some(vec![ASSETS_URL.to_string(), PRICE_URL.to_string()]));
    assert!(r.body.is_none());

    // the path does not matter
    let r2 = c.web4_get(request("/anything/else", None), 12345).unwrap();
    assert_eq!(r2.preload_urls, Some(vec![ASSETS_URL.to_string(), PRICE_URL.to_string()]));
    assert!(r2.body.is_none());
}

#[test]
fn robots_path_short_circuits_both_phases() {
    let c = Contract::new();
    let r = c.web4_get(request("/robots.txt", None), 0).unwrap();
    assert_eq!(r.content_type, Some("text/plain; charset=UTF-8".to_string()));
    assert_eq!(r.body, Some(b"User-agent: *\nDisallow:".to_vec()));
    assert!(r.preload_urls.is_none());

    // even with preloads attached, the robots body comes back
    let r2 = c
        .web4_get(request("/robots.txt", Some(vec![])), 0)
        .unwrap();
    assert_eq!(r2.body, Some(b"User-agent: *\nDisallow:".to_vec()));
}

#[test]
fn phase_b_renders_a_registered_price_row() {
    // one registered asset (display decimals 6) whose quote is
    // (multiplier 1_500_000, feed decimals 12): 1_500_000 / 10^6 = 1.5
    let c = registry_with_bitcoin();
    let price = br#"{"timestamp":"1","recency_duration_sec":90,"prices":[{"asset_id":"btc.near","price":{"multiplier":"1500000","decimals":12}}]}"#;
    let assets = br#"[]"#;
    let r = c.web4_get(request("/", Some(preloads(price, assets))), 300).unwrap();
    assert_eq!(r.content_type, Some("text/html; charset=UTF-8".to_string()));
    let expected = page_with("<tr><td>Bitcoin</td><td>1.5</td></tr>", "");
    assert_eq!(r.body, Some(expected));
}

#[test]
fn validator_aggregation_keeps_the_latest_timestamp() {
    // two reports for oracle "a.near" with timestamps 100 and 200 (ns)
    let assets_bytes = br#"[["btc.near",{"reports":[{"oracle_id":"a.near","timestamp":"100","price":{"multiplier":"7","decimals":8}},{"oracle_id":"a.near","timestamp":"200","price":{"multiplier":"8","decimals":8}}],"emas":[]}]]"#.to_vec();
    let assets = parse_assets(&assets_bytes).unwrap();
    let vals = aggregate_validators(&assets);
    assert_eq!(vals.len(), 1);
    assert_eq!(vals[0].0, b"a.near".to_vec());
    assert_eq!(vals[0].1, 200);

    // at current time 300 ns the rendered age is (300 - 200) / 1e9 seconds,
    // shown with two decimal places
    let c = Contract::new();
    let price = br#"{"timestamp":"1","recency_duration_sec":90,"prices":[]}"#;
    let r = c
        .web4_get(request("/", Some(preloads(price, &assets_bytes))), 300)
        .unwrap();
    let body = String::from_utf8(r.body.unwrap()).unwrap();
    assert!(body.contains("<tr><td>a.near</td><td>0.00</td></tr>"));
}

#[test]
fn unknown_assets_fall_back_but_the_legacy_id_is_suppressed() {
    let c = Contract::new();
    let price = br#"{"timestamp":"1","recency_duration_sec":90,"prices":[{"asset_id":"c02aaa39b223fe8d0a0e5c4f27ead9083c756cc2.factory.bridge.near","price":{"multiplier":"5","decimals":0}},{"asset_id":"mystery.near","price":{"multiplier":"42","decimals":0}},{"asset_id":"silent.near","price":null}]}"#;
    let assets = br#"[]"#;
    let r = c.web4_get(request("/", Some(preloads(price, assets))), 0).unwrap();
    let body = String::from_utf8(r.body.unwrap()).unwrap();
    assert!(!body.contains("c02aaa39b223fe8d0a0e5c4f27ead9083c756cc2"));
    assert!(body.contains("<tr><td>mystery.near</td><td>42</td></tr>"));
    assert!(body.contains("<tr><td>silent.near</td><td>Not found</td></tr>"));
}

#[test]
fn registered_asset_without_quote_renders_no_row() {
    let c = registry_with_bitcoin();
    let price = br#"{"timestamp":"1","recency_duration_sec":90,"prices":[{"asset_id":"btc.near","price":null}]}"#;
    let assets = br#"[]"#;
    let r = c.web4_get(request("/", Some(preloads(price, assets))), 0).unwrap();
    let expected = page_with("", "");
    assert_eq!(r.body, Some(expected));
}

#[test]
fn ema_rows_are_floored_to_four_decimals() {
    let c = registry_with_bitcoin();
    let price = br#"{"timestamp":"1","recency_duration_sec":90,"prices":[]}"#;
    // 123456789 / 10^(14-6) = 1.23456789, floored to 1.2345;
    // 9990000 / 10^(10-6) = 999 exactly
    let assets = br#"[["btc.near",{"reports":[],"emas":[{"period_sec":3600,"timestamp":"1","price":{"multiplier":"123456789","decimals":14}},{"period_sec":86400,"timestamp":"1","price":{"multiplier":"9990000","decimals":10}}]}]]"#;
    let r = c.web4_get(request("/", Some(preloads(price, assets))), 0).unwrap();
    let expected = page_with(
        "<tr><td>Bitcoin EMA#3600</td><td>1.2345</td></tr><tr><td>Bitcoin EMA#86400</td><td>999</td></tr>",
        "",
    );
    assert_eq!(r.body, Some(expected));
}

#[test]
fn missing_preload_aborts_the_request() {
    let c = Contract::new();
    // no entries at all
    let r = c.web4_get(request("/", Some(vec![])), 0);
    assert_eq!(r.unwrap_err(), Web4Error::MissingPreload);

    // entry present but without a body
    let empty = Web4Response {
        content_type: None,
        status: None,
        body: None,
        body_url: None,
        preload_urls: None,
    };
    let pl = vec![
        (PRICE_URL.to_string(), empty),
        (ASSETS_URL.to_string(), body_resp(b"[]")),
    ];
    let r2 = c.web4_get(request("/", Some(pl)), 0);
    assert_eq!(r2.unwrap_err(), Web4Error::MissingPreload);

    // only the price feed attached
    let pl3 = vec![(
        PRICE_URL.to_string(),
        body_resp(br#"{"timestamp":"1","recency_duration_sec":90,"prices":[]}"#),
    )];
    let r3 = c.web4_get(request("/", Some(pl3)), 0);
    assert_eq!(r3.unwrap_err(), Web4Error::MissingPreload);
}

#[test]
fn malformed_feed_bytes_abort_the_request() {
    let c = Contract::new();
    let r = c.web4_get(request("/", Some(preloads(b"not json", b"[]"))), 0);
    assert_eq!(r.unwrap_err(), Web4Error::DecodeFailure);

    let price = br#"{"timestamp":"1","recency_duration_sec":90,"prices":[]}"#;
    let r2 = c.web4_get(request("/", Some(preloads(price, b"nope"))), 0);
    assert_eq!(r2.unwrap_err(), Web4Error::DecodeFailure);
}

#[test]
fn feed_decimals_below_display_decimals_abort_the_request() {
    let c = registry_with_bitcoin();
    let price = br#"{"timestamp":"1","recency_duration_sec":90,"prices":[{"asset_id":"btc.near","price":{"multiplier":"10","decimals":4}}]}"#;
    let r = c.web4_get(request("/", Some(preloads(price, b"[]"))), 0);
    assert_eq!(r.unwrap_err(), Web4Error::NormalizationFault);

    // the same fault on the moving-average path
    let price_ok = br#"{"timestamp":"1","recency_duration_sec":90,"prices":[]}"#;
    let assets = br#"[["btc.near",{"reports":[],"emas":[{"period_sec":60,"timestamp":"1","price":{"multiplier":"10","decimals":4}}]}]]"#;
    let r2 = c.web4_get(request("/", Some(preloads(price_ok, assets))), 0);
    assert_eq!(r2.unwrap_err(), Web4Error::NormalizationFault);
}

#[test]
fn spot_and_ema_rows_keep_their_order() {
    let mut c = registry_with_bitcoin();
    c.add_token_config(
        b"eth.near".to_vec(),
        TokenConfig { token_name: b"Ether".to_vec(), decimals: 6 },
    );
    let price = br#"{"timestamp":"1","recency_duration_sec":90,"prices":[{"asset_id":"eth.near","price":{"multiplier":"2000000","decimals":6}},{"asset_id":"btc.near","price":{"multiplier":"3","decimals":6}}]}"#;
    let assets = br#"[["btc.near",{"reports":[],"emas":[{"period_sec":60,"timestamp":"1","price":{"multiplier":"4","decimals":6}}]}]]"#;
    let r = c.web4_get(request("/", Some(preloads(price, assets))), 0).unwrap();
    let expected = page_with(
        "<tr><td>Ether</td><td>2000000</td></tr><tr><td>Bitcoin</td><td>3</td></tr><tr><td>Bitcoin EMA#60</td><td>4</td></tr>",
        "",
    );
    assert_eq!(r.body, Some(expected));
}

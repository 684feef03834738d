use oracle_web4::parse::{parse_assets, parse_number, parse_price_data, parse_str, parse_uint_str};

#[test]
fn number_parsing() {
    let s = b"1234,".to_vec();
    let (j, v) = parse_number(&s, 0, u128::MAX).unwrap();
    assert_eq!((j, v), (4, 1234));

    // a lone zero is fine, a leading zero is not
    assert_eq!(parse_number(&b"0]".to_vec(), 0, u128::MAX), Some((1, 0)));
    assert!(parse_number(&b"0123".to_vec(), 0, u128::MAX).is_none());
    // not a digit
    assert!(parse_number(&b"x".to_vec(), 0, u128::MAX).is_none());
    // bound enforcement
    assert!(parse_number(&b"256".to_vec(), 0, 255).is_none());
    assert_eq!(parse_number(&b"255".to_vec(), 0, 255), Some((3, 255)));
    // u128 overflow: 2^128 as decimal
    assert!(parse_number(&b"340282366920938463463374607431768211456".to_vec(), 0, u128::MAX)
        .is_none());
    assert_eq!(
        parse_number(&b"340282366920938463463374607431768211455".to_vec(), 0, u128::MAX),
        Some((39, u128::MAX))
    );
}

#[test]
fn string_wrapped_numbers_follow_str_parse() {
    // leading zeros and a leading plus are accepted, as str::parse accepts them
    assert_eq!(parse_uint_str(&b"07\"".to_vec(), 0, u128::MAX), Some((2, 7)));
    assert_eq!(parse_uint_str(&b"+7\"".to_vec(), 0, u128::MAX), Some((2, 7)));
    assert_eq!(parse_uint_str(&b"0007\"".to_vec(), 0, u128::MAX), Some((4, 7)));
    // a sign without digits, or no digits at all, is rejected
    assert!(parse_uint_str(&b"+\"".to_vec(), 0, u128::MAX).is_none());
    assert!(parse_uint_str(&b"\"".to_vec(), 0, u128::MAX).is_none());
    // the bound still applies
    assert!(parse_uint_str(&b"0256".to_vec(), 0, 255).is_none());

    // a feed carrying such values decodes
    let s = br#"{"timestamp":"+1","recency_duration_sec":90,"prices":[{"asset_id":"a","price":{"multiplier":"007","decimals":2}}]}"#.to_vec();
    let pd = parse_price_data(&s).unwrap();
    assert_eq!(pd.timestamp, 1);
    assert_eq!(pd.prices[0].price.as_ref().unwrap().multiplier, 7);
}

#[test]
fn whitespace_between_tokens_is_insignificant() {
    let s = b" {\n\t\"timestamp\" : \"1\" ,\r\n \"recency_duration_sec\" : 90 , \"prices\" : [ { \"asset_id\" : \"a\" , \"price\" : null } ] } \n".to_vec();
    let pd = parse_price_data(&s).unwrap();
    assert_eq!(pd.timestamp, 1);
    assert_eq!(pd.recency_duration_sec, 90);
    assert_eq!(pd.prices.len(), 1);
    assert_eq!(pd.prices[0].asset_id, b"a".to_vec());

    let a = b" [ [ \"x\" , { \"reports\" : [ ] , \"emas\" : [ ] } ] ] ".to_vec();
    let assets = parse_assets(&a).unwrap();
    assert_eq!(assets.len(), 1);
    assert_eq!(assets[0].0, b"x".to_vec());

    // whitespace inside a string-wrapped number is not a number
    let bad = br#"{"timestamp":" 1","recency_duration_sec":90,"prices":[]}"#.to_vec();
    assert!(parse_price_data(&bad).is_none());
}

#[test]
fn string_parsing() {
    let s = b"abc\",".to_vec();
    let (j, v) = parse_str(&s, 0).unwrap();
    assert_eq!(j, 4);
    assert_eq!(v, b"abc".to_vec());
    // escapes and control bytes are rejected
    assert!(parse_str(&b"a\\b\"".to_vec(), 0).is_none());
    assert!(parse_str(&b"a\nb\"".to_vec(), 0).is_none());
    // an unterminated string is rejected
    assert!(parse_str(&b"abc".to_vec(), 0).is_none());
}

#[test]
fn price_data_round_trip() {
    let s = br#"{"timestamp":"1700000000000000000","recency_duration_sec":90,"prices":[{"asset_id":"btc.near","price":{"multiplier":"1500000","decimals":12}},{"asset_id":"gone.near","price":null}]}"#.to_vec();
    let pd = parse_price_data(&s).expect("well-formed snapshot must parse");
    assert_eq!(pd.timestamp, 1_700_000_000_000_000_000);
    assert_eq!(pd.recency_duration_sec, 90);
    assert_eq!(pd.prices.len(), 2);
    assert_eq!(pd.prices[0].asset_id, b"btc.near".to_vec());
    let q = pd.prices[0].price.as_ref().unwrap();
    assert_eq!(q.multiplier, 1_500_000);
    assert_eq!(q.decimals, 12);
    assert!(pd.prices[1].price.is_none());
}

#[test]
fn price_data_rejects_malformed_and_trailing_bytes() {
    assert!(parse_price_data(&b"garbage".to_vec()).is_none());
    assert!(parse_price_data(&b"".to_vec()).is_none());
    let mut s = br#"{"timestamp":"1","recency_duration_sec":1,"prices":[]}"#.to_vec();
    assert!(parse_price_data(&s).is_some());
    // trailing whitespace is insignificant, trailing content is not
    s.push(b' ');
    assert!(parse_price_data(&s).is_some());
    s.push(b'x');
    assert!(parse_price_data(&s).is_none());
}

#[test]
fn assets_round_trip() {
    let s = br#"[["btc.near",{"reports":[{"oracle_id":"a.near","timestamp":"100","price":{"multiplier":"7","decimals":8}}],"emas":[{"period_sec":3600,"timestamp":"100","price":null}]}],["eth.near",{"reports":[],"emas":[]}]]"#.to_vec();
    let assets = parse_assets(&s).expect("well-formed report feed must parse");
    assert_eq!(assets.len(), 2);
    assert_eq!(assets[0].0, b"btc.near".to_vec());
    assert_eq!(assets[0].1.reports.len(), 1);
    assert_eq!(assets[0].1.reports[0].oracle_id, b"a.near".to_vec());
    assert_eq!(assets[0].1.reports[0].timestamp, 100);
    assert_eq!(assets[0].1.reports[0].price.multiplier, 7);
    assert_eq!(assets[0].1.emas.len(), 1);
    assert_eq!(assets[0].1.emas[0].period_sec, 3600);
    assert!(assets[0].1.emas[0].price.is_none());
    assert_eq!(assets[1].0, b"eth.near".to_vec());
    assert!(assets[1].1.reports.is_empty());
    assert!(assets[1].1.emas.is_empty());
}

#[test]
fn assets_empty_and_malformed() {
    assert_eq!(parse_assets(&b"[]".to_vec()).unwrap().len(), 0);
    assert!(parse_assets(&b"[]x".to_vec()).is_none());
    assert!(parse_assets(&b"{}".to_vec()).is_none());
}

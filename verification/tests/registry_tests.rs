use oracle_web4::registry::{Contract, TokenConfig};

fn cfg(name: &str, decimals: u8) -> TokenConfig {
    TokenConfig { token_name: name.as_bytes().to_vec(), decimals }
}

#[test]
fn get_returns_written_entry_and_none_for_unknown() {
    let mut c = Contract::new();
    c.add_token_config(b"btc.near".to_vec(), cfg("Bitcoin", 6));

    let r = c.get_config(vec![b"btc.near".to_vec(), b"eth.near".to_vec()]);
    assert_eq!(r.len(), 2);
    assert_eq!(r[0].0, b"btc.near".to_vec());
    let found = r[0].1.as_ref().expect("written id must be found");
    assert_eq!(found.token_name, b"Bitcoin".to_vec());
    assert_eq!(found.decimals, 6);
    assert_eq!(r[1].0, b"eth.near".to_vec());
    assert!(r[1].1.is_none());
}

#[test]
fn get_preserves_order_and_duplicates() {
    let mut c = Contract::new();
    c.add_token_config(b"a".to_vec(), cfg("A", 1));
    let r = c.get_config(vec![b"a".to_vec(), b"a".to_vec(), b"b".to_vec()]);
    assert_eq!(r.len(), 3);
    assert!(r[0].1.is_some());
    assert!(r[1].1.is_some());
    assert!(r[2].1.is_none());
}

#[test]
fn last_write_wins() {
    let mut c = Contract::new();
    c.add_token_config(b"a".to_vec(), cfg("Old", 1));
    c.add_token_config(b"a".to_vec(), cfg("New", 2));
    let r = c.get_config(vec![b"a".to_vec()]);
    let found = r[0].1.as_ref().unwrap();
    assert_eq!(found.token_name, b"New".to_vec());
    assert_eq!(found.decimals, 2);
}

#[test]
fn add_many_writes_all_in_order() {
    let mut c = Contract::new();
    c.add_token_configs(vec![
        (b"a".to_vec(), cfg("A", 1)),
        (b"b".to_vec(), cfg("B", 2)),
        (b"a".to_vec(), cfg("A2", 3)),
    ]);
    let r = c.get_config(vec![b"a".to_vec(), b"b".to_vec()]);
    assert_eq!(r[0].1.as_ref().unwrap().token_name, b"A2".to_vec());
    assert_eq!(r[0].1.as_ref().unwrap().decimals, 3);
    assert_eq!(r[1].1.as_ref().unwrap().token_name, b"B".to_vec());
}

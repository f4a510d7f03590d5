use vrrb_cli::{App, AppUpdate, ChainSnapshot, MinerSnapshot, WalletSnapshot};

#[test]
fn app_starts_empty() {
    let app = App::default();
    assert!(app.miner.is_none());
    assert!(app.blockchain.is_none());
    assert!(app.wallet.is_none());
    assert_eq!(app.message_cache.len(), 0);
}

#[test]
fn messages_are_keyed_by_arrival() {
    let mut app = App::default();
    app.apply_update(AppUpdate::Message(vec![1, 2, 3]));
    app.apply_update(AppUpdate::Message(vec![4]));
    app.cache_message(vec![5, 6]);
    assert_eq!(app.message_cache.len(), 3);
    assert_eq!(app.message_cache.get(&0), Some(&vec![1, 2, 3]));
    assert_eq!(app.message_cache.get(&1), Some(&vec![4]));
    assert_eq!(app.message_cache.get(&2), Some(&vec![5, 6]));
    let keys: Vec<u128> = app.message_cache.keys().cloned().collect();
    assert_eq!(keys, vec![0, 1, 2]);
}

#[test]
fn snapshots_replace_their_predecessor() {
    let mut app = App::default();
    app.apply_update(AppUpdate::Blockchain(ChainSnapshot {
        field_names: vec!["genesis".to_string()],
        chain_len: 3,
        invalid_len: 0,
    }));
    app.apply_update(AppUpdate::Blockchain(ChainSnapshot {
        field_names: vec!["genesis".to_string(), "chain".to_string()],
        chain_len: 4,
        invalid_len: 1,
    }));
    app.apply_update(AppUpdate::Miner(MinerSnapshot {
        field_names: vec!["claim".to_string()],
        claim_count: 2,
    }));
    app.apply_update(AppUpdate::Wallet(WalletSnapshot { address_count: 1 }));
    let chain = app.blockchain.as_ref().unwrap();
    assert_eq!(chain.chain_len, 4);
    assert_eq!(chain.invalid_len, 1);
    assert_eq!(chain.field_names.len(), 2);
    assert_eq!(app.miner.as_ref().unwrap().claim_count, 2);
    assert_eq!(app.wallet.unwrap().address_count, 1);
    assert_eq!(app.message_cache.len(), 0);
}

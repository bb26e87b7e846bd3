use snip20_ics20::error::ContractError;
use snip20_ics20::state::{
    increase_channel_balance, reduce_channel_balance, undo_reduce_channel_balance, BridgeStorage,
    ChannelState,
};

fn balance(storage: &BridgeStorage, channel: &str, denom: &str) -> Option<ChannelState> {
    storage.channel_balance(&channel.to_string(), &denom.to_string())
}

#[test]
fn credit_creates_and_accumulates() {
    let mut storage = BridgeStorage::new(600);
    let channel = "ch-1".to_string();
    let denom = "cw20:secret1abc".to_string();
    assert_eq!(balance(&storage, "ch-1", "cw20:secret1abc"), None);
    increase_channel_balance(&mut storage, &channel, &denom, 100).unwrap();
    assert_eq!(
        balance(&storage, "ch-1", "cw20:secret1abc"),
        Some(ChannelState { outstanding: 100, total_sent: 100 })
    );
    increase_channel_balance(&mut storage, &channel, &denom, 50).unwrap();
    assert_eq!(
        balance(&storage, "ch-1", "cw20:secret1abc"),
        Some(ChannelState { outstanding: 150, total_sent: 150 })
    );
}

#[test]
fn debit_reduces_outstanding_only() {
    let mut storage = BridgeStorage::new(600);
    let channel = "ch-1".to_string();
    let denom = "cw20:secret1abc".to_string();
    increase_channel_balance(&mut storage, &channel, &denom, 100).unwrap();
    reduce_channel_balance(&mut storage, &channel, &denom, 40).unwrap();
    assert_eq!(
        balance(&storage, "ch-1", "cw20:secret1abc"),
        Some(ChannelState { outstanding: 60, total_sent: 100 })
    );
}

#[test]
fn debit_on_absent_record_fails_without_mutation() {
    let mut storage = BridgeStorage::new(600);
    let channel = "ch-1".to_string();
    let denom = "cw20:secret1abc".to_string();
    let err = reduce_channel_balance(&mut storage, &channel, &denom, 10).unwrap_err();
    assert_eq!(
        err,
        ContractError::InsufficientFunds { token: denom.clone(), amount: 10, code: 1 }
    );
    assert_eq!(balance(&storage, "ch-1", "cw20:secret1abc"), None);
}

#[test]
fn debit_beyond_outstanding_fails_without_mutation() {
    let mut storage = BridgeStorage::new(600);
    let channel = "ch-1".to_string();
    let denom = "cw20:secret1abc".to_string();
    increase_channel_balance(&mut storage, &channel, &denom, 100).unwrap();
    let err = reduce_channel_balance(&mut storage, &channel, &denom, 150).unwrap_err();
    assert_eq!(
        err,
        ContractError::InsufficientFunds { token: denom.clone(), amount: 150, code: 2 }
    );
    assert_eq!(
        balance(&storage, "ch-1", "cw20:secret1abc"),
        Some(ChannelState { outstanding: 100, total_sent: 100 })
    );
}

#[test]
fn undo_debit_restores_exact_pre_debit_state() {
    let mut storage = BridgeStorage::new(600);
    let channel = "ch-1".to_string();
    let denom = "cw20:secret1abc".to_string();
    increase_channel_balance(&mut storage, &channel, &denom, 100).unwrap();
    let before = balance(&storage, "ch-1", "cw20:secret1abc");
    reduce_channel_balance(&mut storage, &channel, &denom, 40).unwrap();
    undo_reduce_channel_balance(&mut storage, &channel, &denom, 40).unwrap();
    assert_eq!(balance(&storage, "ch-1", "cw20:secret1abc"), before);
    assert_eq!(
        balance(&storage, "ch-1", "cw20:secret1abc"),
        Some(ChannelState { outstanding: 100, total_sent: 100 })
    );
}

#[test]
fn undo_debit_tolerates_absent_record() {
    let mut storage = BridgeStorage::new(600);
    let channel = "ch-1".to_string();
    let denom = "cw20:secret1abc".to_string();
    undo_reduce_channel_balance(&mut storage, &channel, &denom, 25).unwrap();
    assert_eq!(
        balance(&storage, "ch-1", "cw20:secret1abc"),
        Some(ChannelState { outstanding: 25, total_sent: 0 })
    );
}

#[test]
fn credit_then_compensating_debit_returns_to_pre_send_outstanding() {
    let mut storage = BridgeStorage::new(600);
    let channel = "ch-1".to_string();
    let denom = "cw20:secret1abc".to_string();
    increase_channel_balance(&mut storage, &channel, &denom, 100).unwrap();
    reduce_channel_balance(&mut storage, &channel, &denom, 100).unwrap();
    assert_eq!(
        balance(&storage, "ch-1", "cw20:secret1abc"),
        Some(ChannelState { outstanding: 0, total_sent: 100 })
    );
}

#[test]
fn pairs_are_tracked_independently() {
    let mut storage = BridgeStorage::new(600);
    let ch1 = "ch-1".to_string();
    let ch2 = "ch-2".to_string();
    let d1 = "cw20:secret1aaa".to_string();
    let d2 = "cw20:secret1bbb".to_string();
    increase_channel_balance(&mut storage, &ch1, &d1, 10).unwrap();
    increase_channel_balance(&mut storage, &ch1, &d2, 20).unwrap();
    increase_channel_balance(&mut storage, &ch2, &d1, 30).unwrap();
    reduce_channel_balance(&mut storage, &ch1, &d2, 5).unwrap();
    assert_eq!(
        balance(&storage, "ch-1", "cw20:secret1aaa"),
        Some(ChannelState { outstanding: 10, total_sent: 10 })
    );
    assert_eq!(
        balance(&storage, "ch-1", "cw20:secret1bbb"),
        Some(ChannelState { outstanding: 15, total_sent: 20 })
    );
    assert_eq!(
        balance(&storage, "ch-2", "cw20:secret1aaa"),
        Some(ChannelState { outstanding: 30, total_sent: 30 })
    );
    assert_eq!(balance(&storage, "ch-2", "cw20:secret1bbb"), None);
}

use snip20_ics20::amount::Snip20Coin;
use snip20_ics20::contract::{execute_transfer, register_tokens, Snip20Data, TransferMsg};
use snip20_ics20::error::ContractError;
use snip20_ics20::ibc::{
    ibc_channel_connect, ibc_channel_open, ibc_packet_ack, ibc_packet_receive, ibc_packet_timeout,
    reply, ChannelDesc, ChannelOrder, Ics20Ack, Ics20Packet, SubMsgOutcome, TransferAction,
    ACK_FAILURE_ID, RECEIVE_ID,
};
use snip20_ics20::state::{increase_channel_balance, BridgeStorage, ChannelState, Endpoint};

fn attr_pairs(attrs: &[snip20_ics20::ibc::Attribute]) -> Vec<(String, String)> {
    attrs.iter().map(|a| (a.key.clone(), a.value.clone())).collect()
}

fn endpoint(port: &str, channel: &str) -> Endpoint {
    Endpoint { port_id: port.to_string(), channel_id: channel.to_string() }
}

fn handshake(local_channel: &str, order: ChannelOrder, version: &str) -> ChannelDesc {
    ChannelDesc {
        endpoint: endpoint("transfer", local_channel),
        counterparty_endpoint: endpoint("portA", "chanA"),
        order,
        version: version.to_string(),
        connection_id: "connection-1".to_string(),
    }
}

fn storage_with_channel() -> BridgeStorage {
    let mut storage = BridgeStorage::new(600);
    ibc_channel_connect(&mut storage, handshake("ch-1", ChannelOrder::Unordered, "ics20-1"), None)
        .unwrap();
    storage
}

fn balance(storage: &BridgeStorage, channel: &str, denom: &str) -> Option<ChannelState> {
    storage.channel_balance(&channel.to_string(), &denom.to_string())
}

#[test]
fn send_with_zero_amount_is_rejected_without_mutation() {
    let mut storage = storage_with_channel();
    let msg = TransferMsg {
        channel: "ch-1".to_string(),
        remote_address: "remote1addr".to_string(),
        timeout: Some(60),
    };
    let coin = Snip20Coin { address: "secret1x".to_string(), amount: 0 };
    let err =
        execute_transfer(&mut storage, msg, coin, &"secret1sender".to_string(), 0).unwrap_err();
    assert_eq!(err, ContractError::NoFunds);
    assert_eq!(balance(&storage, "ch-1", "cw20:secret1x"), None);
}

#[test]
fn send_on_unknown_channel_is_rejected() {
    let mut storage = storage_with_channel();
    let msg = TransferMsg {
        channel: "ch-9".to_string(),
        remote_address: "remote1addr".to_string(),
        timeout: Some(60),
    };
    let coin = Snip20Coin { address: "secret1x".to_string(), amount: 5 };
    let err =
        execute_transfer(&mut storage, msg, coin, &"secret1sender".to_string(), 0).unwrap_err();
    assert_eq!(err, ContractError::NoSuchChannel { id: "ch-9".to_string() });
}

#[test]
fn send_with_oversized_amount_is_rejected_without_mutation() {
    let mut storage = storage_with_channel();
    let msg = TransferMsg {
        channel: "ch-1".to_string(),
        remote_address: "remote1addr".to_string(),
        timeout: Some(60),
    };
    let coin = Snip20Coin { address: "secret1x".to_string(), amount: u64::MAX as u128 + 1 };
    let err =
        execute_transfer(&mut storage, msg, coin, &"secret1sender".to_string(), 0).unwrap_err();
    assert_eq!(err, ContractError::AmountOverflow);
    assert_eq!(balance(&storage, "ch-1", "cw20:secret1x"), None);
}

fn send_100() -> (BridgeStorage, Ics20Packet) {
    let mut storage = storage_with_channel();
    let msg = TransferMsg {
        channel: "ch-1".to_string(),
        remote_address: "remote1addr".to_string(),
        timeout: Some(60),
    };
    let coin = Snip20Coin { address: "secret1x".to_string(), amount: 100 };
    let resp = execute_transfer(
        &mut storage,
        msg,
        coin,
        &"secret1sender".to_string(),
        1_000_000_000,
    )
    .unwrap();
    (storage, resp.packet)
}

#[test]
fn send_credits_the_channel_and_builds_the_packet() {
    let mut storage = storage_with_channel();
    let msg = TransferMsg {
        channel: "ch-1".to_string(),
        remote_address: "remote1addr".to_string(),
        timeout: Some(60),
    };
    let coin = Snip20Coin { address: "secret1x".to_string(), amount: 100 };
    let resp = execute_transfer(
        &mut storage,
        msg,
        coin,
        &"secret1sender".to_string(),
        1_000_000_000,
    )
    .unwrap();
    assert_eq!(resp.channel_id, "ch-1".to_string());
    assert_eq!(resp.timeout, 61_000_000_000);
    assert_eq!(resp.packet.amount, 100);
    assert_eq!(resp.packet.denom, "cw20:secret1x".to_string());
    assert_eq!(resp.packet.sender, "secret1sender".to_string());
    assert_eq!(resp.packet.receiver, "remote1addr".to_string());
    assert_eq!(
        balance(&storage, "ch-1", "cw20:secret1x"),
        Some(ChannelState { outstanding: 100, total_sent: 100 })
    );
}

#[test]
fn send_uses_the_configured_default_timeout() {
    let mut storage = storage_with_channel();
    let msg = TransferMsg {
        channel: "ch-1".to_string(),
        remote_address: "remote1addr".to_string(),
        timeout: None,
    };
    let coin = Snip20Coin { address: "secret1x".to_string(), amount: 1 };
    let resp =
        execute_transfer(&mut storage, msg, coin, &"secret1sender".to_string(), 5).unwrap();
    assert_eq!(resp.timeout, 5 + 600 * 1_000_000_000);
}

#[test]
fn success_ack_leaves_the_credit_standing() {
    let (mut storage, packet) = send_100();
    let resp = ibc_packet_ack(
        &mut storage,
        Ics20Ack::Success(vec![49]),
        &packet,
        &"ch-1".to_string(),
    )
    .unwrap();
    assert!(resp.transfer.is_none());
    assert_eq!(
        balance(&storage, "ch-1", "cw20:secret1x"),
        Some(ChannelState { outstanding: 100, total_sent: 100 })
    );
}

#[test]
fn timeout_compensates_the_credit_and_refunds_the_sender() {
    let (mut storage, packet) = send_100();
    register_tokens(
        &mut storage,
        vec![Snip20Data { address: "secret1x".to_string(), code_hash: "HASH-X".to_string() }],
    );
    let resp = ibc_packet_timeout(&mut storage, &packet, &"ch-1".to_string()).unwrap();
    assert_eq!(
        balance(&storage, "ch-1", "cw20:secret1x"),
        Some(ChannelState { outstanding: 0, total_sent: 100 })
    );
    assert_eq!(
        resp.transfer,
        Some(TransferAction {
            contract_addr: "secret1x".to_string(),
            code_hash: "HASH-X".to_string(),
            recipient: "secret1sender".to_string(),
            amount: 100,
            reply_id: ACK_FAILURE_ID,
        })
    );
}

#[test]
fn error_ack_compensates_like_a_timeout() {
    let (mut storage, packet) = send_100();
    register_tokens(
        &mut storage,
        vec![Snip20Data { address: "secret1x".to_string(), code_hash: "HASH-X".to_string() }],
    );
    let resp = ibc_packet_ack(
        &mut storage,
        Ics20Ack::Error("out of gas".to_string()),
        &packet,
        &"ch-1".to_string(),
    )
    .unwrap();
    assert!(resp.transfer.is_some());
    assert_eq!(
        balance(&storage, "ch-1", "cw20:secret1x"),
        Some(ChannelState { outstanding: 0, total_sent: 100 })
    );
}

fn voucher_packet(amount: u128) -> Ics20Packet {
    Ics20Packet {
        amount,
        denom: "portA/chanA/cw20:secret1abc".to_string(),
        receiver: "secret1rcvr".to_string(),
        sender: "remote1sender".to_string(),
    }
}

fn storage_for_receive() -> BridgeStorage {
    let mut storage = BridgeStorage::new(600);
    register_tokens(
        &mut storage,
        vec![Snip20Data { address: "secret1abc".to_string(), code_hash: "HASH-ABC".to_string() }],
    );
    increase_channel_balance(
        &mut storage,
        &"ch-1".to_string(),
        &"secret1abc".to_string(),
        100,
    )
    .unwrap();
    storage
}

#[test]
fn receive_debits_outstanding_and_requests_the_transfer() {
    let mut storage = storage_for_receive();
    let resp = ibc_packet_receive(
        &mut storage,
        Ok(voucher_packet(50)),
        &"ch-1".to_string(),
        &endpoint("portA", "chanA"),
    );
    assert_eq!(resp.ack, Ics20Ack::Success(vec![49]));
    assert_eq!(
        resp.transfer,
        Some(TransferAction {
            contract_addr: "secret1abc".to_string(),
            code_hash: "HASH-ABC".to_string(),
            recipient: "secret1rcvr".to_string(),
            amount: 50,
            reply_id: RECEIVE_ID,
        })
    );
    assert_eq!(
        balance(&storage, "ch-1", "secret1abc"),
        Some(ChannelState { outstanding: 50, total_sent: 100 })
    );
}

#[test]
fn failed_completion_restores_the_debit_and_overrides_the_ack() {
    let mut storage = storage_for_receive();
    ibc_packet_receive(
        &mut storage,
        Ok(voucher_packet(50)),
        &"ch-1".to_string(),
        &endpoint("portA", "chanA"),
    );
    let resp = reply(
        &mut storage,
        RECEIVE_ID,
        SubMsgOutcome::Failed("transfer failed".to_string()),
    )
    .unwrap();
    assert_eq!(resp.ack_override, Some(Ics20Ack::Error("transfer failed".to_string())));
    assert_eq!(
        attr_pairs(&resp.attributes),
        vec![("ack_error".to_string(), "transfer failed".to_string())]
    );
    assert_eq!(
        balance(&storage, "ch-1", "secret1abc"),
        Some(ChannelState { outstanding: 100, total_sent: 100 })
    );
}

#[test]
fn successful_completion_leaves_the_debit_standing() {
    let mut storage = storage_for_receive();
    ibc_packet_receive(
        &mut storage,
        Ok(voucher_packet(50)),
        &"ch-1".to_string(),
        &endpoint("portA", "chanA"),
    );
    let resp = reply(&mut storage, RECEIVE_ID, SubMsgOutcome::Completed).unwrap();
    assert!(resp.ack_override.is_none());
    assert_eq!(
        balance(&storage, "ch-1", "secret1abc"),
        Some(ChannelState { outstanding: 50, total_sent: 100 })
    );
}

#[test]
fn receive_beyond_outstanding_yields_a_failure_ack_without_mutation() {
    let mut storage = storage_for_receive();
    let resp = ibc_packet_receive(
        &mut storage,
        Ok(voucher_packet(150)),
        &"ch-1".to_string(),
        &endpoint("portA", "chanA"),
    );
    assert_eq!(
        resp.ack,
        Ics20Ack::Error("insufficient funds to redeem voucher: 150 secret1abc".to_string())
    );
    assert!(resp.transfer.is_none());
    assert_eq!(
        attr_pairs(&resp.attributes),
        vec![
            ("action".to_string(), "receive".to_string()),
            ("success".to_string(), "false".to_string()),
            (
                "error".to_string(),
                "insufficient funds to redeem voucher: 150 secret1abc".to_string()
            ),
        ]
    );
    assert_eq!(
        balance(&storage, "ch-1", "secret1abc"),
        Some(ChannelState { outstanding: 100, total_sent: 100 })
    );
}

#[test]
fn receive_of_unregistered_token_yields_a_failure_ack() {
    let mut storage = BridgeStorage::new(600);
    increase_channel_balance(
        &mut storage,
        &"ch-1".to_string(),
        &"secret1abc".to_string(),
        100,
    )
    .unwrap();
    let resp = ibc_packet_receive(
        &mut storage,
        Ok(voucher_packet(50)),
        &"ch-1".to_string(),
        &endpoint("portA", "chanA"),
    );
    assert_eq!(resp.ack, Ics20Ack::Error("token is not registered: secret1abc".to_string()));
    assert_eq!(
        balance(&storage, "ch-1", "secret1abc"),
        Some(ChannelState { outstanding: 100, total_sent: 100 })
    );
}

#[test]
fn receive_of_foreign_denomination_yields_a_failure_ack() {
    let mut storage = storage_for_receive();
    let mut packet = voucher_packet(50);
    packet.denom = "portB/chanA/cw20:secret1abc".to_string();
    let resp = ibc_packet_receive(
        &mut storage,
        Ok(packet),
        &"ch-1".to_string(),
        &endpoint("portA", "chanA"),
    );
    assert_eq!(
        resp.ack,
        Ics20Ack::Error("parsed port from denom does not match packet path: portB".to_string())
    );
    assert!(resp.transfer.is_none());
}

#[test]
fn undecodable_receive_yields_a_failure_ack_without_mutation() {
    let mut storage = storage_for_receive();
    let resp = ibc_packet_receive(
        &mut storage,
        Err("invalid ics20 packet".to_string()),
        &"ch-1".to_string(),
        &endpoint("portA", "chanA"),
    );
    assert_eq!(resp.ack, Ics20Ack::Error("invalid ics20 packet".to_string()));
    assert!(resp.transfer.is_none());
    assert_eq!(
        balance(&storage, "ch-1", "secret1abc"),
        Some(ChannelState { outstanding: 100, total_sent: 100 })
    );
}

#[test]
fn compensation_reports_the_ledger_error_before_registration() {
    let mut storage = BridgeStorage::new(600);
    let packet = Ics20Packet {
        amount: 10,
        denom: "cw20:secret1x".to_string(),
        receiver: "remote1addr".to_string(),
        sender: "secret1sender".to_string(),
    };
    let err = ibc_packet_timeout(&mut storage, &packet, &"ch-1".to_string()).unwrap_err();
    assert_eq!(
        err,
        ContractError::InsufficientFunds { token: "cw20:secret1x".to_string(), amount: 10, code: 1 }
    );
}

#[test]
fn timeout_emits_the_failure_audit_events() {
    let (mut storage, packet) = send_100();
    register_tokens(
        &mut storage,
        vec![Snip20Data { address: "secret1x".to_string(), code_hash: "HASH-X".to_string() }],
    );
    let resp = ibc_packet_timeout(&mut storage, &packet, &"ch-1".to_string()).unwrap();
    assert_eq!(
        attr_pairs(&resp.attributes),
        vec![
            ("action".to_string(), "acknowledge".to_string()),
            ("sender".to_string(), "secret1sender".to_string()),
            ("receiver".to_string(), "remote1addr".to_string()),
            ("denom".to_string(), "cw20:secret1x".to_string()),
            ("amount".to_string(), "100".to_string()),
            ("success".to_string(), "false".to_string()),
            ("error".to_string(), "timeout".to_string()),
        ]
    );
}

#[test]
fn reply_with_unknown_tag_is_a_fault() {
    let mut storage = storage_for_receive();
    let err = reply(&mut storage, 42, SubMsgOutcome::Completed).unwrap_err();
    assert_eq!(err, ContractError::UnknownReplyId { id: 42 });
}

#[test]
fn reply_without_pending_completion_is_a_fault() {
    let mut storage = BridgeStorage::new(600);
    let err = reply(
        &mut storage,
        RECEIVE_ID,
        SubMsgOutcome::Failed("boom".to_string()),
    )
    .unwrap_err();
    assert_eq!(err, ContractError::NoPendingCompletion);
}

#[test]
fn failed_refund_surfaces_the_error_without_further_compensation() {
    let mut storage = storage_for_receive();
    let before = balance(&storage, "ch-1", "secret1abc");
    let resp = reply(
        &mut storage,
        ACK_FAILURE_ID,
        SubMsgOutcome::Failed("refund failed".to_string()),
    )
    .unwrap();
    assert_eq!(resp.ack_override, Some(Ics20Ack::Error("refund failed".to_string())));
    assert_eq!(balance(&storage, "ch-1", "secret1abc"), before);
}

#[test]
fn channel_open_enforces_version_and_ordering() {
    assert!(ibc_channel_open(&handshake("ch-1", ChannelOrder::Unordered, "ics20-1"), None).is_ok());
    assert_eq!(
        ibc_channel_open(&handshake("ch-1", ChannelOrder::Unordered, "ics20-5"), None)
            .unwrap_err(),
        ContractError::InvalidIbcVersion { version: "ics20-5".to_string() }
    );
    assert_eq!(
        ibc_channel_open(&handshake("ch-1", ChannelOrder::Ordered, "ics20-1"), None).unwrap_err(),
        ContractError::OnlyOrderedChannel
    );
    let bad = "ics20-9".to_string();
    assert_eq!(
        ibc_channel_open(&handshake("ch-1", ChannelOrder::Unordered, "ics20-1"), Some(&bad))
            .unwrap_err(),
        ContractError::InvalidIbcVersion { version: "ics20-9".to_string() }
    );
    let good = "ics20-1".to_string();
    assert!(
        ibc_channel_open(&handshake("ch-1", ChannelOrder::Unordered, "ics20-1"), Some(&good))
            .is_ok()
    );
}

#[test]
fn channel_connect_records_the_channel_info() {
    let mut storage = BridgeStorage::new(600);
    ibc_channel_connect(&mut storage, handshake("ch-7", ChannelOrder::Unordered, "ics20-1"), None)
        .unwrap();
    let info = storage.get_channel_info(&"ch-7".to_string()).unwrap();
    assert_eq!(info.id, "ch-7".to_string());
    assert_eq!(info.counterparty_endpoint.port_id, "portA".to_string());
    assert_eq!(info.counterparty_endpoint.channel_id, "chanA".to_string());
    assert_eq!(info.connection_id, "connection-1".to_string());
    assert!(storage.has_channel(&"ch-7".to_string()));
    assert!(!storage.has_channel(&"ch-8".to_string()));
}

#[test]
fn registration_replaces_earlier_code_hashes() {
    let mut storage = BridgeStorage::new(600);
    register_tokens(
        &mut storage,
        vec![
            Snip20Data { address: "secret1abc".to_string(), code_hash: "OLD".to_string() },
            Snip20Data { address: "secret1abc".to_string(), code_hash: "NEW".to_string() },
        ],
    );
    assert_eq!(
        storage.load_code_hash(&"secret1abc".to_string()),
        Some("NEW".to_string())
    );
    assert_eq!(storage.load_code_hash(&"secret1zzz".to_string()), None);
}

#[test]
fn error_texts_are_stable() {
    assert_eq!(ContractError::NoFunds.error_text(), "no funds were sent".to_string());
    assert_eq!(
        ContractError::FromOtherPort { port: "p".to_string() }.error_text(),
        "parsed port from denom does not match packet path: p".to_string()
    );
    assert_eq!(
        ContractError::InsufficientFunds {
            token: "secret1abc".to_string(),
            amount: 150,
            code: 2
        }
        .error_text(),
        "insufficient funds to redeem voucher: 150 secret1abc".to_string()
    );
}

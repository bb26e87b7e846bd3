use snip20_ics20::amount::{u128_to_dec, Snip20Coin};
use snip20_ics20::error::ContractError;
use snip20_ics20::ibc::{parse_voucher_denom, Ics20Packet};
use snip20_ics20::state::Endpoint;

fn endpoint(port: &str, channel: &str) -> Endpoint {
    Endpoint { port_id: port.to_string(), channel_id: channel.to_string() }
}

#[test]
fn parse_resolves_local_token_address() {
    let denom = "portA/chanA/cw20:secret1abc".to_string();
    let token = parse_voucher_denom(&denom, &endpoint("portA", "chanA")).unwrap();
    assert_eq!(token, "secret1abc".to_string());
}

#[test]
fn parse_keeps_extra_slashes_in_the_token_reference() {
    let denom = "portA/chanA/cw20:secret1a/b".to_string();
    let token = parse_voucher_denom(&denom, &endpoint("portA", "chanA")).unwrap();
    assert_eq!(token, "secret1a/b".to_string());
}

#[test]
fn parse_rejects_two_segments() {
    let denom = "portA/chanA".to_string();
    let err = parse_voucher_denom(&denom, &endpoint("portA", "chanA")).unwrap_err();
    assert_eq!(err, ContractError::NoForeignTokens);
}

#[test]
fn parse_rejects_one_segment() {
    let denom = "ucosm".to_string();
    let err = parse_voucher_denom(&denom, &endpoint("portA", "chanA")).unwrap_err();
    assert_eq!(err, ContractError::NoForeignTokens);
}

#[test]
fn parse_rejects_foreign_port() {
    let denom = "portB/chanA/cw20:secret1abc".to_string();
    let err = parse_voucher_denom(&denom, &endpoint("portA", "chanA")).unwrap_err();
    assert_eq!(err, ContractError::FromOtherPort { port: "portB".to_string() });
}

#[test]
fn parse_rejects_foreign_channel() {
    let denom = "portA/chanB/cw20:secret1abc".to_string();
    let err = parse_voucher_denom(&denom, &endpoint("portA", "chanA")).unwrap_err();
    assert_eq!(err, ContractError::FromOtherChannel { channel: "chanB".to_string() });
}

#[test]
fn parse_rejects_unsupported_token_reference() {
    let denom = "portA/chanA/ucosm".to_string();
    let err = parse_voucher_denom(&denom, &endpoint("portA", "chanA")).unwrap_err();
    assert_eq!(err, ContractError::OnlySecretTokens);
    let denom = "portA/chanA/cw20:other1abc".to_string();
    let err = parse_voucher_denom(&denom, &endpoint("portA", "chanA")).unwrap_err();
    assert_eq!(err, ContractError::OnlySecretTokens);
}

#[test]
fn validate_rejects_zero_amount() {
    let packet = Ics20Packet::new(0, "cw20:secret1abc".to_string(), "alice", "bob");
    assert_eq!(packet.validate().unwrap_err(), ContractError::NoFunds);
}

#[test]
fn validate_rejects_amount_beyond_64_bits() {
    let packet = Ics20Packet::new(
        u64::MAX as u128 + 1,
        "cw20:secret1abc".to_string(),
        "alice",
        "bob",
    );
    assert_eq!(packet.validate().unwrap_err(), ContractError::AmountOverflow);
}

#[test]
fn validate_accepts_bounded_nonzero_amount() {
    let packet = Ics20Packet::new(u64::MAX as u128, "cw20:secret1abc".to_string(), "alice", "bob");
    assert!(packet.validate().is_ok());
}

#[test]
fn coin_denom_and_from_parts_round_trip() {
    let coin = Snip20Coin { address: "secret1xyz".to_string(), amount: 7 };
    let denom = coin.denom();
    assert_eq!(denom, "cw20:secret1xyz".to_string());
    let back = Snip20Coin::from_parts(denom, 7);
    assert_eq!(back.address, "secret1xyz".to_string());
    assert_eq!(back.amount, 7);
}

#[test]
fn from_parts_keeps_unprefixed_denomination() {
    let coin = Snip20Coin::from_parts("ucosm".to_string(), 3);
    assert_eq!(coin.address, "ucosm".to_string());
}

#[test]
fn decimal_rendering_is_exact() {
    assert_eq!(u128_to_dec(0), "0".to_string());
    assert_eq!(u128_to_dec(7), "7".to_string());
    assert_eq!(u128_to_dec(1234567890), "1234567890".to_string());
    assert_eq!(
        u128_to_dec(u128::MAX),
        "340282366920938463463374607431768211455".to_string()
    );
}

use lampod::model::{Channel, ChannelDetails, NodeId};

const KEY: &str = "0279be667ef9dcbbac55a06295ce870b07029bfcdb2dce28d959f2815b16f81798";

#[test]
fn node_id_round_trips_through_hex() {
    let id = NodeId::from_hex(KEY).expect("the generator point is a key");
    assert_eq!(id.bytes[0], 0x02);
    assert_eq!(id.bytes[1], 0x79);
    assert_eq!(id.bytes[32], 0x98);
    assert_eq!(id.to_hex(), KEY);
}

#[test]
fn channel_shows_the_details() {
    let id = NodeId::from_hex(KEY).unwrap();
    let details = ChannelDetails {
        short_channel_id: Some(42),
        counterparty: id,
        is_channel_ready: true,
        channel_value_satoshis: 100_000,
        balance_msat: 60_000_000,
        is_public: false,
        outbound_capacity_msat: 59_000_000,
        inbound_capacity_msat: 39_000_000,
    };
    let channel = Channel::of(&details);
    assert_eq!(channel.short_channel_id, Some(42));
    assert_eq!(channel.peer_id, KEY);
    assert_eq!(channel.peer_alias, None);
    assert!(channel.ready);
    assert_eq!(channel.amount_satoshis, 100_000);
    assert_eq!(channel.amount_msat, 60_000_000);
    assert!(!channel.public);
    assert_eq!(channel.available_balance_for_send_msat, 59_000_000);
    assert_eq!(channel.available_balance_for_recv_msat, 39_000_000);
}

#[test]
fn every_byte_is_written_as_two_lower_case_hex_digits() {
    for byte in 0u8..=255 {
        let mut bytes = [0u8; 33];
        bytes[16] = byte;
        let text = NodeId { bytes }.to_hex();
        assert_eq!(text.len(), 66);
        assert_eq!(&text[32..34], format!("{:02x}", byte));
        assert_eq!(&text[..32], "0".repeat(32));
        assert_eq!(&text[34..], "0".repeat(32));
    }
}

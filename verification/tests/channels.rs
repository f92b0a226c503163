use std::str::FromStr;
use bitcoin::BlockHash;
use lampod::channel_manager::{LampoChannelManager, Report};
use lampod::channels::{channel_opened, channel_order, MonitorLoad, PUSH_MSAT, TO_SELF_DELAY};
use lampod::error::Error;
use lampod::model::{
    Channel, ChannelDetails, ChannelPolicy, LampoConf, Network, NewChannel, NodeId, OpenChannel,
    OpenChannelResponse,
};

type Manager = LampoChannelManager<u8, u8, u8, u8, u8, u8>;

const GENERATOR: &str = "0279be667ef9dcbbac55a06295ce870b07029bfcdb2dce28d959f2815b16f81798";
const GENERATOR_UNCOMPRESSED: &str = "0479be667ef9dcbbac55a06295ce870b07029bfcdb2dce28d959f2815b16f81798\
     483ada7726a3c4655da4fbfc0e1108a8fd17b448a68554199c47d08ffb10d4b8";
const TWO_G: &str = "02c6047f9441ed7d6d3045406e95c07cd85c778e4b8cef3ca7abac09b95c709ee5";

fn generator_bytes() -> [u8; 33] {
    [
        0x02, 0x79, 0xbe, 0x66, 0x7e, 0xf9, 0xdc, 0xbb, 0xac, 0x55, 0xa0, 0x62, 0x95, 0xce, 0x87,
        0x0b, 0x07, 0x02, 0x9b, 0xfc, 0xdb, 0x2d, 0xce, 0x28, 0xd9, 0x59, 0xf2, 0x81, 0x5b, 0x16,
        0xf8, 0x17, 0x98,
    ]
}

fn idle() -> Manager {
    LampoChannelManager::new(LampoConf { network: Network::Bitcoin, path: "/lampo".to_string() })
}

fn with_monitor() -> Manager {
    let mut manager = idle();
    manager.restart();
    manager.resume(Report::MonitorBuilt(1)).unwrap();
    manager
}

fn started() -> Manager {
    let mut manager = idle();
    manager.start(block_hash(0), 0, 0);
    manager.resume(Report::MonitorBuilt(1)).unwrap();
    manager.resume(Report::GraphRead(Some(2))).unwrap();
    manager.resume(Report::ScorerRead(Some(3))).unwrap();
    manager.resume(Report::RouterDerived(4)).unwrap();
    manager.resume(Report::ManagerBuilt(5)).unwrap();
    manager
}

fn details(scid: Option<u64>, peer: &str, ready: bool, sats: u64) -> ChannelDetails {
    ChannelDetails {
        short_channel_id: scid,
        counterparty: NodeId::from_hex(peer).unwrap(),
        is_channel_ready: ready,
        channel_value_satoshis: sats,
        balance_msat: sats * 400,
        is_public: ready,
        outbound_capacity_msat: sats * 300,
        inbound_capacity_msat: sats * 600,
    }
}

#[test]
fn from_hex_reads_the_key_and_not_the_text() {
    assert_eq!(NodeId::from_hex(GENERATOR), Some(NodeId { bytes: generator_bytes() }));
    // The uncompressed spelling of the same key is the same node.
    assert_eq!(NodeId::from_hex(GENERATOR_UNCOMPRESSED), Some(NodeId { bytes: generator_bytes() }));
}

#[test]
fn from_hex_refuses_what_is_no_key() {
    assert_eq!(NodeId::from_hex(""), None);
    assert_eq!(NodeId::from_hex("02"), None);
    assert_eq!(NodeId::from_hex("not hex at all"), None);
    // 33 bytes of hex that are no point of the curve.
    assert_eq!(
        NodeId::from_hex("020000000000000000000000000000000000000000000000000000000000000005"),
        None
    );
}

#[test]
fn to_hex_writes_two_lower_case_digits_per_byte() {
    let mut bytes = [0u8; 33];
    bytes[0] = 0x02;
    bytes[1] = 0xAB;
    bytes[2] = 0x0f;
    bytes[32] = 0xf0;
    let text = NodeId { bytes }.to_hex();
    assert_eq!(text.len(), 66);
    assert_eq!(&text[0..6], "02ab0f");
    assert_eq!(&text[64..66], "f0");
    assert_eq!(&text[6..64], "0".repeat(58));
}

#[test]
fn list_channel_shows_every_channel_in_order() {
    let manager = started();
    let reported =
        vec![details(Some(7), GENERATOR, true, 1_000), details(None, TWO_G, false, 25_000)];
    let listed = manager.list_channel(&reported);
    assert_eq!(
        listed,
        vec![
            Channel {
                short_channel_id: Some(7),
                peer_id: GENERATOR.to_string(),
                peer_alias: None,
                ready: true,
                amount_satoshis: 1_000,
                amount_msat: 400_000,
                public: true,
                available_balance_for_send_msat: 300_000,
                available_balance_for_recv_msat: 600_000,
            },
            Channel {
                short_channel_id: None,
                peer_id: TWO_G.to_string(),
                peer_alias: None,
                ready: false,
                amount_satoshis: 25_000,
                amount_msat: 10_000_000,
                public: false,
                available_balance_for_send_msat: 7_500_000,
                available_balance_for_recv_msat: 15_000_000,
            },
        ]
    );
}

#[test]
fn listing_the_same_report_twice_shows_the_same_channels() {
    let manager = started();
    let reported = vec![details(Some(1), GENERATOR, true, 10), details(Some(2), TWO_G, true, 20)];
    assert_eq!(manager.list_channel(&reported), manager.list_channel(&reported.clone()));
}

#[test]
fn open_channel_orders_a_channel_with_the_fixed_policy() {
    let manager = started();
    let request = OpenChannel { node_id: GENERATOR.to_string(), amount: 250_000, public: true };
    assert_eq!(
        manager.open_channel(&request),
        Ok(NewChannel {
            counterparty: NodeId { bytes: generator_bytes() },
            channel_value_satoshis: 250_000,
            push_msat: 0,
            user_channel_id: 0,
            policy: ChannelPolicy { their_to_self_delay: 2016, announced_channel: true },
        })
    );
    let private = OpenChannel { node_id: GENERATOR.to_string(), amount: 1, public: false };
    assert_eq!(
        manager.open_channel(&private).unwrap().policy,
        ChannelPolicy { their_to_self_delay: 2016, announced_channel: false }
    );
}

#[test]
fn open_channel_refuses_a_peer_that_is_no_node() {
    let manager = started();
    let request = OpenChannel { node_id: "lampo".to_string(), amount: 250_000, public: true };
    let refused = manager.open_channel(&request);
    assert_eq!(refused, Err(Error::InvalidNodeId { node_id: "lampo".to_string() }));
    assert_eq!(refused.unwrap_err().message(), "node id `lampo` is not valid");
}

#[test]
fn channel_order_takes_the_peer_it_is_given() {
    let request = OpenChannel { node_id: "whatever".to_string(), amount: 9, public: false };
    let peer = NodeId { bytes: [4u8; 33] };
    assert_eq!(
        channel_order(&request, Some(peer)),
        Ok(NewChannel {
            counterparty: peer,
            channel_value_satoshis: 9,
            push_msat: PUSH_MSAT,
            user_channel_id: 0,
            policy: ChannelPolicy { their_to_self_delay: TO_SELF_DELAY, announced_channel: false },
        })
    );
    assert_eq!(
        channel_order(&request, None),
        Err(Error::InvalidNodeId { node_id: "whatever".to_string() })
    );
}

#[test]
fn open_channel_response_has_delay_2016_and_pushes_nothing() {
    for amount in [0u64, 1, 20_000, 16_777_215, u64::MAX] {
        let request = OpenChannel { node_id: GENERATOR.to_string(), amount, public: true };
        assert_eq!(
            channel_opened(request, Ok(())),
            Ok(OpenChannelResponse {
                node_id: GENERATOR.to_string(),
                amount,
                public: true,
                push_msat: 0,
                to_self_delay: 2016,
            })
        );
    }
}

#[test]
fn open_channel_fails_with_the_reason_of_the_engine() {
    let request = OpenChannel { node_id: GENERATOR.to_string(), amount: 5, public: false };
    let failed = channel_opened(request, Err("APIMisuseError { err: \"too small\" }".to_string()));
    assert_eq!(
        failed,
        Err(Error::ChannelOpen {
            node_id: GENERATOR.to_string(),
            reason: "APIMisuseError { err: \"too small\" }".to_string(),
        })
    );
    assert_eq!(
        failed.unwrap_err().message(),
        format!("channel with `{}` not opened: APIMisuseError {{ err: \"too small\" }}", GENERATOR)
    );
}

fn records() -> Vec<(BlockHash, &'static str)> {
    vec![
        (block_hash(1), "first"),
        (block_hash(2), "second"),
        (block_hash(3), "third"),
    ]
}

#[test]
fn monitors_are_watched_only_if_asked_and_a_chain_monitor_exists() {
    let with = with_monitor();
    assert_eq!(
        with.load_channel_monitors(true, Ok(records())),
        Ok(vec![
            MonitorLoad { monitor: "first", watch: true },
            MonitorLoad { monitor: "second", watch: true },
            MonitorLoad { monitor: "third", watch: true },
        ])
    );
    assert_eq!(
        with.load_channel_monitors(false, Ok(records())),
        Ok(vec![
            MonitorLoad { monitor: "first", watch: false },
            MonitorLoad { monitor: "second", watch: false },
            MonitorLoad { monitor: "third", watch: false },
        ])
    );
    // Without a chain monitor the outputs are still registered, and no more.
    let without = idle();
    assert_eq!(
        without.load_channel_monitors(true, Ok(records())),
        Ok(vec![
            MonitorLoad { monitor: "first", watch: false },
            MonitorLoad { monitor: "second", watch: false },
            MonitorLoad { monitor: "third", watch: false },
        ])
    );
    assert_eq!(without.load_channel_monitors(true, Ok(vec![])), Ok(Vec::<MonitorLoad<u8>>::new()));
}

#[test]
fn a_failed_read_fails_the_load() {
    let manager = with_monitor();
    let read: Result<Vec<(BlockHash, u8)>, String> = Err("bad directory".to_string());
    let failed = manager.load_channel_monitors(true, read.clone());
    assert_eq!(failed, Err(Error::MonitorStore { reason: "bad directory".to_string() }));
    assert_eq!(failed.unwrap_err().message(), "channel monitors not read: bad directory");
    assert_eq!(
        manager.get_channel_monitors(read),
        Err(Error::MonitorStore { reason: "bad directory".to_string() })
    );
}

#[test]
fn get_channel_monitors_drops_the_block_hashes() {
    let manager = idle();
    assert_eq!(manager.get_channel_monitors(Ok(records())), Ok(vec!["first", "second", "third"]));
    assert_eq!(manager.get_channel_monitors(Ok(Vec::<(BlockHash, u8)>::new())), Ok(vec![]));
}

fn block_hash(byte: u8) -> BlockHash {
    BlockHash::from_str(&format!("{:02x}", byte).repeat(32)).unwrap()
}

use mintlayer_zk::event_relay::{
    client_step, fetched_tx_event, format_block_id, new_block_event, new_tx_event, relay_step,
    ChainstateEvent, ClientAction, ClientInput, MempoolEvent, RelayAction, RelayInput, TxLookup,
    WsEvent,
};
use mintlayer_zk::hex::hex_encode;

fn id(first: u8, last: u8) -> [u8; 32] {
    let mut b = [0u8; 32];
    b[0] = first;
    b[31] = last;
    b
}

#[test]
fn hex_is_lower_case_two_digits_per_byte() {
    assert_eq!(hex_encode(&[]), "");
    assert_eq!(hex_encode(&[0x00, 0x0f, 0xa0, 0xff, 0x12]), "000fa0ff12");
    assert_eq!(hex_encode(&[0xde, 0xad, 0xbe, 0xef]), "deadbeef");
}

#[test]
fn block_id_is_formatted_as_64_hex_digits() {
    let s = format_block_id(&id(0xab, 0x01));
    assert_eq!(s.len(), 64);
    assert_eq!(&s[..2], "ab");
    assert_eq!(&s[62..], "01");
    assert_eq!(&s[2..62], "0".repeat(60));
}

#[test]
fn new_tip_is_broadcast_as_new_block() {
    let action = relay_step(RelayInput::Chainstate(Some(ChainstateEvent::NewTip {
        block_id: id(0x10, 0x20),
        height: 77,
    })));
    match action {
        RelayAction::Broadcast(WsEvent::NewBlock { block_id, height }) => {
            assert_eq!(block_id, format!("10{}20", "0".repeat(60)));
            assert_eq!(height, 77);
        }
        _ => panic!("expected a broadcast of the new block"),
    }
}

#[test]
fn accepted_transaction_is_fetched() {
    let action = relay_step(RelayInput::Mempool(Some(MempoolEvent::TransactionProcessed {
        tx_id: id(1, 2),
        accepted: true,
    })));
    assert!(matches!(action, RelayAction::FetchTransaction(t) if t == id(1, 2)));
    let action = relay_step(RelayInput::Mempool(Some(MempoolEvent::TransactionProcessed {
        tx_id: id(1, 2),
        accepted: false,
    })));
    assert!(matches!(action, RelayAction::Ignore));
    assert!(matches!(
        relay_step(RelayInput::Mempool(Some(MempoolEvent::NewTip))),
        RelayAction::Ignore
    ));
}

#[test]
fn closed_subscriptions_and_shutdown_stop_the_relay() {
    assert!(matches!(relay_step(RelayInput::Chainstate(None)), RelayAction::Stop));
    assert!(matches!(relay_step(RelayInput::Mempool(None)), RelayAction::Stop));
    assert!(matches!(relay_step(RelayInput::Shutdown), RelayAction::Stop));
}

#[test]
fn fetched_transaction_is_announced_only_when_found() {
    let tx_id = id(0xff, 0xee);
    match fetched_tx_event(&tx_id, &TxLookup::Found(vec![0x01, 0xab])) {
        Some(WsEvent::NewTx { tx_id: t, raw_tx }) => {
            assert_eq!(t, format!("ff{}ee", "0".repeat(60)));
            assert_eq!(raw_tx, "01ab");
        }
        _ => panic!("expected a transaction announcement"),
    }
    assert!(fetched_tx_event(&tx_id, &TxLookup::Evicted).is_none());
    assert!(fetched_tx_event(&tx_id, &TxLookup::Failed).is_none());
}

#[test]
fn event_constructors() {
    match new_block_event(&[0u8; 32], 5) {
        WsEvent::NewBlock { block_id, height } => {
            assert_eq!(block_id, "0".repeat(64));
            assert_eq!(height, 5);
        }
        _ => panic!("expected a block event"),
    }
    match new_tx_event(&[0x11u8; 32], &[]) {
        WsEvent::NewTx { tx_id, raw_tx } => {
            assert_eq!(tx_id, "11".repeat(32));
            assert_eq!(raw_tx, "");
        }
        _ => panic!("expected a transaction event"),
    }
}

#[test]
fn client_connection_decisions() {
    let e = new_block_event(&[1u8; 32], 1);
    assert!(matches!(
        client_step(ClientInput::Event(e)),
        ClientAction::Send(WsEvent::NewBlock { height: 1, .. })
    ));
    assert!(matches!(client_step(ClientInput::Lagged(3)), ClientAction::Continue));
    assert!(matches!(client_step(ClientInput::EncodeFailed), ClientAction::Continue));
    assert!(matches!(client_step(ClientInput::ClientMessage), ClientAction::Continue));
    assert!(matches!(client_step(ClientInput::ChannelClosed), ClientAction::Disconnect));
    assert!(matches!(client_step(ClientInput::SendFailed), ClientAction::Disconnect));
    assert!(matches!(client_step(ClientInput::ClientGone), ClientAction::Disconnect));
}

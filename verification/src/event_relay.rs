//! WebSocket event relay: the events broadcast to connected clients, and the decisions the
//! relay takes on each chainstate event, mempool event and client-side occurrence.
//!
//! The relay's loops (subscribing, awaiting, sending over the socket) run outside the
//! library; each step hands what happened to a function here and performs what it returns.

use vstd::prelude::*;

use crate::hex::{hex_encode, hex_lower, is_lower_hex_of, lemma_hex_lower_renders};

verus! {

/// An event sent to WebSocket clients.
#[derive(Debug, Clone)]
pub enum WsEvent {
    /// A transaction was accepted into the mempool.
    NewTx {
        /// The transaction id in lower-case hex
        tx_id: String,
        /// The encoded transaction in lower-case hex
        raw_tx: String,
    },
    /// The chain has a new tip.
    NewBlock {
        /// The block id in lower-case hex
        block_id: String,
        /// The height of the block
        height: u64,
    },
}

/// `event` announces the block `block_id` at `height`.
pub open spec fn is_new_block_event(event: WsEvent, block_id: Seq<u8>, height: u64) -> bool {
    &&& event is NewBlock
    &&& event->NewBlock_block_id@ == hex_lower(block_id)
    &&& event->NewBlock_height == height
}

/// `event` announces the transaction `tx_id` whose encoding is `raw_tx`.
pub open spec fn is_new_tx_event(event: WsEvent, tx_id: Seq<u8>, raw_tx: Seq<u8>) -> bool {
    &&& event is NewTx
    &&& event->NewTx_tx_id@ == hex_lower(tx_id)
    &&& event->NewTx_raw_tx@ == hex_lower(raw_tx)
}

/// A block announcement carries the whole block id in lower-case hex (64 digits) and the
/// height.
pub proof fn lemma_block_event_renders_id(event: WsEvent, block_id: Seq<u8>, height: u64)
    requires
        is_new_block_event(event, block_id, height),
    ensures
        event is NewBlock,
        is_lower_hex_of(event->NewBlock_block_id@, block_id),
        event->NewBlock_block_id@.len() == 2 * block_id.len(),
        event->NewBlock_height == height,
{
    lemma_hex_lower_renders(block_id);
}

/// A transaction announcement carries the whole transaction id and the whole encoded
/// transaction in lower-case hex: two digits for every byte.
pub proof fn lemma_tx_event_renders_whole_transaction(
    event: WsEvent,
    tx_id: Seq<u8>,
    raw_tx: Seq<u8>,
)
    requires
        is_new_tx_event(event, tx_id, raw_tx),
    ensures
        event is NewTx,
        is_lower_hex_of(event->NewTx_tx_id@, tx_id),
        is_lower_hex_of(event->NewTx_raw_tx@, raw_tx),
        event->NewTx_raw_tx@.len() == 2 * raw_tx.len(),
{
    lemma_hex_lower_renders(tx_id);
    lemma_hex_lower_renders(raw_tx);
}

/// The lower-case hex rendering of a block id.
pub fn format_block_id(id: &[u8; 32]) -> (r: String)
    ensures
        r@ == hex_lower(id@),
        is_lower_hex_of(r@, id@),
        r@.len() == 64,
{
    hex_encode(id.as_slice())
}

/// The event that announces the block `block_id` at `height`.
pub fn new_block_event(block_id: &[u8; 32], height: u64) -> (r: WsEvent)
    ensures
        is_new_block_event(r, block_id@, height),
        r is NewBlock,
        is_lower_hex_of(r->NewBlock_block_id@, block_id@),
        r->NewBlock_height == height,
{
    WsEvent::NewBlock { block_id: format_block_id(block_id), height }
}

/// The event that announces the transaction `tx_id` whose encoding is `raw_tx`.
pub fn new_tx_event(tx_id: &[u8; 32], raw_tx: &[u8]) -> (r: WsEvent)
    ensures
        is_new_tx_event(r, tx_id@, raw_tx@),
        r is NewTx,
        is_lower_hex_of(r->NewTx_tx_id@, tx_id@),
        is_lower_hex_of(r->NewTx_raw_tx@, raw_tx@),
{
    WsEvent::NewTx { tx_id: hex_encode(tx_id.as_slice()), raw_tx: hex_encode(raw_tx) }
}

/// A chainstate event, as far as the relay reads it.
pub enum ChainstateEvent {
    /// The chain has a new tip.
    NewTip { block_id: [u8; 32], height: u64 },
}

/// A mempool event, as far as the relay reads it.
pub enum MempoolEvent {
    /// The mempool processed a transaction; `accepted` tells whether it was taken in.
    TransactionProcessed { tx_id: [u8; 32], accepted: bool },
    /// The mempool moved to a new tip.
    NewTip,
}

/// What the relay loop received: an event, or the end of a subscription (`None`), or a
/// shutdown request.
pub enum RelayInput {
    Chainstate(Option<ChainstateEvent>),
    Mempool(Option<MempoolEvent>),
    Shutdown,
}

/// What the relay loop does next.
pub enum RelayAction {
    /// Send the event to every connected client.
    Broadcast(WsEvent),
    /// Look the transaction up in the mempool, in a task of its own, and broadcast it if
    /// it is still there.
    FetchTransaction([u8; 32]),
    /// Nothing; wait for the next input.
    Ignore,
    /// Leave the loop: the server shuts down.
    Stop,
}

/// The relay loop's decision on one input.
pub fn relay_step(input: RelayInput) -> (r: RelayAction)
    ensures
        match input {
            RelayInput::Chainstate(Some(ChainstateEvent::NewTip { block_id, height })) => {
                &&& r is Broadcast
                &&& is_new_block_event(r->Broadcast_0, block_id@, height)
                &&& r->Broadcast_0 is NewBlock
                &&& is_lower_hex_of(r->Broadcast_0->NewBlock_block_id@, block_id@)
                &&& r->Broadcast_0->NewBlock_height == height
            },
            RelayInput::Mempool(
                Some(MempoolEvent::TransactionProcessed { tx_id, accepted }),
            ) => if accepted {
                r == RelayAction::FetchTransaction(tx_id)
            } else {
                r is Ignore
            },
            RelayInput::Mempool(Some(MempoolEvent::NewTip)) => r is Ignore,
            RelayInput::Chainstate(None) | RelayInput::Mempool(None) | RelayInput::Shutdown => r is Stop,
        },
{
    match input {
        RelayInput::Chainstate(Some(ChainstateEvent::NewTip { block_id, height })) => {
            RelayAction::Broadcast(new_block_event(&block_id, height))
        },
        RelayInput::Mempool(Some(MempoolEvent::TransactionProcessed { tx_id, accepted })) => {
            if accepted {
                RelayAction::FetchTransaction(tx_id)
            } else {
                RelayAction::Ignore
            }
        },
        RelayInput::Mempool(Some(MempoolEvent::NewTip)) => RelayAction::Ignore,
        RelayInput::Chainstate(None) | RelayInput::Mempool(None) | RelayInput::Shutdown => {
            RelayAction::Stop
        },
    }
}

/// The outcome of looking a transaction up in the mempool.
pub enum TxLookup {
    /// The transaction is there; its encoding.
    Found(Vec<u8>),
    /// The transaction was evicted before it could be fetched.
    Evicted,
    /// The mempool could not be asked.
    Failed,
}

/// The event to broadcast after looking up the transaction `tx_id`: an announcement where
/// it was found, nothing otherwise.
pub fn fetched_tx_event(tx_id: &[u8; 32], lookup: &TxLookup) -> (r: Option<WsEvent>)
    ensures
        match lookup {
            TxLookup::Found(raw) => {
                &&& r is Some
                &&& is_new_tx_event(r->0, tx_id@, raw@)
                &&& r->0 is NewTx
                &&& is_lower_hex_of(r->0->NewTx_tx_id@, tx_id@)
                &&& is_lower_hex_of(r->0->NewTx_raw_tx@, raw@)
            },
            _ => r is None,
        },
{
    match lookup {
        TxLookup::Found(raw) => Some(new_tx_event(tx_id, raw.as_slice())),
        _ => None,
    }
}

/// What happened on one client's connection.
pub enum ClientInput {
    /// The broadcast channel delivered an event.
    Event(WsEvent),
    /// The client fell behind; this many events were dropped for it.
    Lagged(u64),
    /// The broadcast channel is closed.
    ChannelClosed,
    /// An event could not be turned into JSON.
    EncodeFailed,
    /// Sending to the client failed.
    SendFailed,
    /// The client sent a message.
    ClientMessage,
    /// The client's side ended, or its stream reported an error.
    ClientGone,
}

/// What the connection handler does next.
pub enum ClientAction {
    /// Send the event to the client as JSON.
    Send(WsEvent),
    /// Go on waiting.
    Continue,
    /// Close the connection.
    Disconnect,
}

/// The connection handler's decision on one input.
pub fn client_step(input: ClientInput) -> (r: ClientAction)
    ensures
        match input {
            ClientInput::Event(e) => r == ClientAction::Send(e),
            ClientInput::Lagged(_) | ClientInput::EncodeFailed | ClientInput::ClientMessage => r is Continue,
            ClientInput::ChannelClosed | ClientInput::SendFailed | ClientInput::ClientGone => r is Disconnect,
        },
{
    match input {
        ClientInput::Event(e) => ClientAction::Send(e),
        ClientInput::Lagged(_) | ClientInput::EncodeFailed | ClientInput::ClientMessage => {
            ClientAction::Continue
        },
        ClientInput::ChannelClosed | ClientInput::SendFailed | ClientInput::ClientGone => {
            ClientAction::Disconnect
        },
    }
}

} // verus!

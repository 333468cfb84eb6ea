//! Live chat: the broadcast channel of each room, and the steps of a websocket
//! session that stores each text it receives and broadcasts the stored message.
use vstd::prelude::*;
use std::collections::HashMap;
use tokio::sync::broadcast::Sender;

use crate::models::{DbError, Message};

verus! {

broadcast use vstd::std_specs::hash::group_hash_axioms;

/// `tokio::sync::broadcast::Sender`, the sending half of a room's channel.
#[verifier::external_type_specification]
#[verifier::external_body]
#[verifier::reject_recursive_types(T)]
pub struct ExSender<T>(Sender<T>);

/// The number of messages that a room's channel keeps for a slow receiver.
pub const ROOM_CHANNEL_CAPACITY: usize = 100;

/// The capacity that a broadcast channel was made with (as asked for; tokio rounds
/// its buffer up to a power of two).
pub uninterp spec fn channel_capacity(tx: Sender<String>) -> nat;

/// A new broadcast channel: `tokio::sync::broadcast::channel(capacity)`, keeping
/// its sender. Claimed: it was made with that capacity, and it is none of the
/// channels in `existing` (`channel` allocates new shared state every time; the
/// map is read only for this claim). `channel` panics on a capacity of 0 or above
/// `usize::MAX / 2`, which `requires` leaves out.
#[verifier::external_body]
fn new_channel_apart(existing: &HashMap<u128, Sender<String>>, capacity: usize) -> (tx: Sender<String>)
    requires
        0 < capacity <= usize::MAX / 2,
    ensures
        channel_capacity(tx) == capacity,
        forall|k: u128| #[trigger] existing@.contains_key(k) ==> tx != existing@[k],
{
    tokio::sync::broadcast::channel::<String>(capacity).0
}

/// `Sender::clone`: another handle to the same channel. Claimed: the clone is the
/// same value as the original (tokio's `clone` copies the `Arc` of the shared
/// channel state and only counts one more sender).
#[verifier::external_body]
fn clone_sender(tx: &Sender<String>) -> (res: Sender<String>)
    ensures
        res == *tx,
{
    tx.clone()
}

/// The broadcast channels of the rooms that have a live session, by room id.
pub struct RoomChannels {
    pub rooms: HashMap<u128, Sender<String>>,
}

impl View for RoomChannels {
    type V = Map<u128, Sender<String>>;

    open spec fn view(&self) -> Map<u128, Sender<String>> {
        self.rooms@
    }
}

/// Taking the channel of `room` turns the registry `before` into `after`: the room
/// is registered, a room that had a channel keeps it and nothing else changes.
pub open spec fn channel_taken(before: Map<u128, Sender<String>>, room: u128, after: Map<
    u128,
    Sender<String>,
>) -> bool {
    &&& after.dom() == before.dom().insert(room)
    &&& forall|k: u128| #[trigger] before.contains_key(k) ==> after[k] == before[k]
}

impl RoomChannels {
    /// No room has a channel yet.
    pub fn new() -> (res: RoomChannels)
        ensures
            res@ == Map::<u128, Sender<String>>::empty(),
    {
        RoomChannels { rooms: HashMap::new() }
    }

    /// A handle to the channel of a room, made if the room has none yet: the
    /// handle is the channel that the registry now holds for the room, which for a
    /// room that had one is the channel it had, and for a new room a fresh channel
    /// of capacity 100 that no other room has.
    pub fn channel_for(&mut self, room: u128) -> (tx: Sender<String>)
        ensures
            channel_taken(old(self)@, room, final(self)@),
            tx == final(self)@[room],
            old(self)@.contains_key(room) ==> tx == old(self)@[room],
            !old(self)@.contains_key(room) ==> channel_capacity(tx) == ROOM_CHANNEL_CAPACITY
                && forall|k: u128| #[trigger] old(self)@.contains_key(k) ==> tx != old(self)@[k],
    {
        let ghost before = self.rooms@;
        if !self.rooms.contains_key(&room) {
            let tx = new_channel_apart(&self.rooms, ROOM_CHANNEL_CAPACITY);
            self.rooms.insert(room, tx);
        }
        assert(self.rooms@.dom() =~= before.dom().insert(room));
        match self.rooms.get(&room) {
            Some(tx) => clone_sender(tx),
            None => {
                proof {
                    assert(false);
                }
                new_channel_apart(&self.rooms, ROOM_CHANNEL_CAPACITY)
            },
        }
    }
}

/// Taking a room's channel a second time changes nothing: the room keeps the
/// channel it was given the first time, so both takings hand out the same channel.
pub proof fn lemma_channel_taken_idempotent(
    m1: Map<u128, Sender<String>>,
    room: u128,
    m2: Map<u128, Sender<String>>,
    m3: Map<u128, Sender<String>>,
)
    requires
        channel_taken(m1, room, m2),
        channel_taken(m2, room, m3),
    ensures
        m3 == m2,
        m3[room] == m2[room],
{
    assert(m3.dom() =~= m2.dom());
    assert(m3 =~= m2);
}

/// A frame received on the websocket.
pub enum IncomingFrame {
    /// A text frame.
    Text(String),
    /// Any other frame, or a receive error.
    Other,
    /// The connection closed.
    Closed,
}

/// Where a websocket session stands.
pub enum SocketPhase {
    /// Waiting for the next frame.
    AwaitFrame,
    /// Waiting for the received text to be stored as a message.
    AwaitStore,
    /// Waiting for the stored message to be broadcast to the room.
    AwaitBroadcast,
    /// Ended.
    Closed,
}

/// A websocket session of a user in a room.
pub struct SocketFlow {
    pub room_id: u128,
    pub sender_id: u128,
    pub phase: SocketPhase,
}

/// The outcome of the last operation.
pub enum SocketEvent {
    Received(IncomingFrame),
    Stored(Result<Message, DbError>),
    Broadcast(Result<(), ()>),
}

/// What to do next.
pub enum SocketAction {
    /// Receive the next frame.
    Receive,
    /// Store a message in the room, from the session's user.
    StoreMessage { room_id: u128, text: String, sender_id: u128 },
    /// Send the stored message, as JSON, to the room's channel.
    Broadcast(Message),
    /// Report a failure to store, then receive the next frame.
    ReportAndReceive(String),
    /// End the session.
    Close,
}

impl SocketFlow {
    /// The event is the outcome of what the phase waits for.
    pub open spec fn accepts(&self, ev: SocketEvent) -> bool {
        match self.phase {
            SocketPhase::AwaitFrame => ev is Received,
            SocketPhase::AwaitStore => ev is Stored,
            SocketPhase::AwaitBroadcast => ev is Broadcast,
            SocketPhase::Closed => false,
        }
    }

    /// A session of a user in a room: first a frame is received.
    pub fn start(room_id: u128, sender_id: u128) -> (res: (SocketFlow, SocketAction))
        ensures
            res.0 == (SocketFlow { room_id, sender_id, phase: SocketPhase::AwaitFrame }),
            res.1 is Receive,
    {
        (SocketFlow { room_id, sender_id, phase: SocketPhase::AwaitFrame }, SocketAction::Receive)
    }

    /// One step. A text frame is stored as a message of the session's user in the
    /// room; any other frame, or the end of the connection, ends the session. A
    /// stored message is broadcast; a failure to store is reported and the session
    /// goes on. A broadcast that fails ends the session; otherwise the next frame is
    /// received.
    pub fn step(self, ev: SocketEvent) -> (res: (SocketFlow, SocketAction))
        requires
            self.accepts(ev),
        ensures
            res.0.room_id == self.room_id,
            res.0.sender_id == self.sender_id,
            res.0.phase is Closed <==> res.1 is Close,
            match (self.phase, ev) {
                (SocketPhase::AwaitFrame, SocketEvent::Received(IncomingFrame::Text(t))) => res.0.phase is AwaitStore && (res.1 matches SocketAction::StoreMessage { room_id, text, sender_id } && room_id == self.room_id && text@ == t@ && sender_id == self.sender_id),
                (SocketPhase::AwaitFrame, SocketEvent::Received(_)) => res.1 is Close,
                (SocketPhase::AwaitStore, SocketEvent::Stored(Ok(m))) => res.0.phase is AwaitBroadcast && res.1 == SocketAction::Broadcast(m),
                (SocketPhase::AwaitStore, SocketEvent::Stored(Err(e))) => res.0.phase is AwaitFrame && (res.1 matches SocketAction::ReportAndReceive(r) && r@ == e.message@),
                (SocketPhase::AwaitBroadcast, SocketEvent::Broadcast(Ok(()))) => res.0.phase is AwaitFrame && res.1 is Receive,
                (SocketPhase::AwaitBroadcast, SocketEvent::Broadcast(Err(()))) => res.1 is Close,
                _ => false,
            },
    {
        let room_id = self.room_id;
        let sender_id = self.sender_id;
        match (self.phase, ev) {
            (SocketPhase::AwaitFrame, SocketEvent::Received(frame)) => match frame {
                IncomingFrame::Text(text) => (
                    SocketFlow { room_id, sender_id, phase: SocketPhase::AwaitStore },
                    SocketAction::StoreMessage { room_id, text, sender_id },
                ),
                _ => (SocketFlow { room_id, sender_id, phase: SocketPhase::Closed }, SocketAction::Close),
            },
            (SocketPhase::AwaitStore, SocketEvent::Stored(stored)) => match stored {
                Ok(m) => (
                    SocketFlow { room_id, sender_id, phase: SocketPhase::AwaitBroadcast },
                    SocketAction::Broadcast(m),
                ),
                Err(e) => (
                    SocketFlow { room_id, sender_id, phase: SocketPhase::AwaitFrame },
                    SocketAction::ReportAndReceive(e.message),
                ),
            },
            (SocketPhase::AwaitBroadcast, SocketEvent::Broadcast(sent)) => match sent {
                Ok(()) => (
                    SocketFlow { room_id, sender_id, phase: SocketPhase::AwaitFrame },
                    SocketAction::Receive,
                ),
                Err(()) => (SocketFlow { room_id, sender_id, phase: SocketPhase::Closed }, SocketAction::Close),
            },
            _ => {
                proof {
                    assert(false);
                }
                (SocketFlow { room_id, sender_id, phase: SocketPhase::Closed }, SocketAction::Close)
            },
        }
    }
}

} // verus!

use vstd::prelude::*;
use tokio::sync::broadcast::{Receiver, Sender};

verus! {

#[verifier::external_type_specification]
#[verifier::external_body]
#[verifier::reject_recursive_types(T)]
pub struct ExSender<T>(Sender<T>);

#[verifier::external_type_specification]
#[verifier::external_body]
#[verifier::reject_recursive_types(T)]
pub struct ExReceiver<T>(Receiver<T>);

/// The largest capacity a message bus can be built with.
pub const MAX_CAPACITY: usize = usize::MAX / 2;

/// Relies on `tokio::sync::broadcast::Sender::new`: a bus with no receiver yet,
/// which keeps the last `capacity` messages for each lagging receiver. It panics
/// on a capacity of zero or above `usize::MAX >> 1`.
#[verifier::external_body]
fn new_bus(capacity: usize) -> (r: Sender<String>)
    requires
        0 < capacity <= MAX_CAPACITY,
{
    Sender::new(capacity)
}

/// Relies on `tokio::sync::broadcast::Sender::subscribe`: a new receiver that
/// sees the messages sent after this call.
#[verifier::external_body]
fn bus_subscribe(tx: &Sender<String>) -> (r: Receiver<String>) {
    tx.subscribe()
}

/// Relies on `Clone` for `tokio::sync::broadcast::Sender`: another handle on
/// the same bus.
#[verifier::external_body]
fn bus_handle(tx: &Sender<String>) -> (r: Sender<String>) {
    tx.clone()
}

/// Relies on `uuid::Uuid::new_v4`: a random identifier, as a 128-bit integer.
#[verifier::external_body]
pub(crate) fn random_id() -> (r: u128) {
    uuid::Uuid::new_v4().as_u128()
}

/// A named broadcast topic: an identity and one bounded message bus.
pub struct Channel {
    id: u128,
    name: String,
    size: usize,
    tx: Sender<String>,
    /// The messages handed to the bus's `send` through this handle, in order.
    sent: Ghost<Seq<Seq<char>>>,
}

/// Relies on `tokio::sync::broadcast::Sender::send`: it is handed `msg`, which
/// the handle's log records; it fails, handing the message back, when no
/// receiver is attached, and otherwise returns how many receivers were
/// attached (at least one). The handle's id, name and capacity are untouched.
#[verifier::external_body]
fn bus_send(chan: &mut Channel, msg: String) -> (r: Option<usize>)
    ensures
        r matches Some(n) ==> n >= 1,
        final(chan).sent_spec() == old(chan).sent_spec().push(msg@),
        final(chan).id_spec() == old(chan).id_spec(),
        final(chan).name_spec() == old(chan).name_spec(),
        final(chan).size_spec() == old(chan).size_spec(),
{
    match chan.tx.send(msg) {
        Ok(n) => Some(n),
        Err(_) => None,
    }
}

impl Channel {
    pub closed spec fn id_spec(&self) -> u128 {
        self.id
    }

    pub closed spec fn name_spec(&self) -> Seq<char> {
        self.name@
    }

    pub closed spec fn size_spec(&self) -> usize {
        self.size
    }

    /// The messages published through this handle, in order.
    pub closed spec fn sent_spec(&self) -> Seq<Seq<char>> {
        self.sent@
    }

    /// A channel with a fresh random id and an empty bus of the given capacity.
    pub fn new(name: String, size: usize) -> (r: Channel)
        requires
            0 < size <= MAX_CAPACITY,
        ensures
            r.name_spec() == name@,
            r.size_spec() == size,
            r.sent_spec() == Seq::<Seq<char>>::empty(),
    {
        let tx = new_bus(size);
        Channel { id: random_id(), name, size, tx, sent: Ghost(Seq::empty()) }
    }

    /// A channel with the given id and an empty bus of the given capacity.
    pub fn with_id(id: u128, name: String, size: usize) -> (r: Channel)
        requires
            0 < size <= MAX_CAPACITY,
        ensures
            r.id_spec() == id,
            r.name_spec() == name@,
            r.size_spec() == size,
            r.sent_spec() == Seq::<Seq<char>>::empty(),
    {
        Channel { id, name, size, tx: new_bus(size), sent: Ghost(Seq::empty()) }
    }

    pub fn get_id(&self) -> (r: u128)
        ensures
            r == self.id_spec(),
    {
        self.id
    }

    pub fn get_name(&self) -> (r: String)
        ensures
            r@ == self.name_spec(),
    {
        self.name.clone()
    }

    pub fn get_size(&self) -> (r: usize)
        ensures
            r == self.size_spec(),
    {
        self.size
    }

    /// A sending handle on this channel's bus.
    pub fn get_tx(&self) -> (r: Sender<String>) {
        bus_handle(&self.tx)
    }

    /// A new cursor on this channel's bus, positioned after every message
    /// published so far.
    pub fn get_rx(&self) -> (r: Receiver<String>) {
        bus_subscribe(&self.tx)
    }

    /// Another handle on the same channel: same id, name, capacity and bus.
    pub fn share(&self) -> (r: Channel)
        ensures
            r.id_spec() == self.id_spec(),
            r.name_spec() == self.name_spec(),
            r.size_spec() == self.size_spec(),
            r.sent_spec() == Seq::<Seq<char>>::empty(),
    {
        Channel {
            id: self.id,
            name: self.name.clone(),
            size: self.size,
            tx: bus_handle(&self.tx),
            sent: Ghost(Seq::empty()),
        }
    }

    /// Hands `msg` to the bus, for every cursor attached now. `None` when no
    /// cursor is attached (the message is dropped); otherwise how many were
    /// attached. The channel's id, name and capacity stay as they were.
    pub fn publish(&mut self, msg: String) -> (r: Option<usize>)
        ensures
            r matches Some(n) ==> n >= 1,
            final(self).sent_spec() == old(self).sent_spec().push(msg@),
            final(self).id_spec() == old(self).id_spec(),
            final(self).name_spec() == old(self).name_spec(),
            final(self).size_spec() == old(self).size_spec(),
    {
        bus_send(self, msg)
    }
}

} // verus!

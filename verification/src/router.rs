//! The typed local bus: one channel for each type of message, made when the
//! type is first asked for and kept for as long as the bus lives.
//!
//! A fan-out channel hands every value to every subscriber and never holds
//! the publisher up: a subscriber that falls behind loses the oldest values
//! and is told how many. A single-consumer queue hands each value to its one
//! reader, in order. Both are channels of `tokio`, and the registry is an
//! `anymap::AnyMap`; what is proved here is what the bus does with them.

use vstd::prelude::*;

verus! {

/// The number of values that a channel of the bus holds.
pub const ROUTER_MESSAGE_SIZE: usize = 1024;

/// The handles of the channels of a bus, one for each type of handle, in an
/// `anymap::AnyMap`. The map is hidden from the verifier, which cannot take
/// its type; what is assumed of it is said by the functions below.
#[verifier::external_body]
pub struct ChannelMap {
    map: anymap::AnyMap,
}

/// The number of handles that a map of channels holds.
pub uninterp spec fn channel_count(channels: ChannelMap) -> nat;

/// The registry of the channels of the bus, by the type of their messages,
/// with the capacity that each new channel is given.
pub struct Router {
    channels: ChannelMap,
    capacity: Capacity,
}

/// A capacity with which a channel of the bus can be made.
struct Capacity {
    value: usize,
}

/// Whether a channel of the bus can be made with `capacity`: it holds at
/// least one value, and no more than a channel can count.
pub open spec fn is_capacity(capacity: usize) -> bool {
    0 < capacity <= usize::MAX / 8
}

/// Calls `anymap::AnyMap::new`: a registry that holds nothing.
#[verifier::external_body]
fn registry_new() -> (channels: ChannelMap)
    ensures
        channel_count(channels) == 0,
{
    ChannelMap { map: anymap::AnyMap::new() }
}

/// Calls `anymap::Map::len`: the number of values in the registry.
#[verifier::external_body]
fn registry_len(channels: &ChannelMap) -> (len: usize)
    ensures
        len == channel_count(*channels),
{
    channels.map.len()
}

/// Calls `anymap::Map::get`: the value of type `T` that the registry holds,
/// if it holds one. That depends on the types of what was stored, which
/// this library does not model; a registry that yields a value is not empty.
#[verifier::external_body]
fn registry_get<T: 'static>(channels: &ChannelMap) -> (value: Option<&T>)
    ensures
        value is Some ==> channel_count(*channels) > 0,
{
    channels.map.get::<T>()
}

/// Calls `anymap::Map::insert`, which stores `value` as the value of type
/// `T`, in place of an earlier one if there is one. All other values stay,
/// so the registry holds as many values as before, or one more.
#[verifier::external_body]
fn registry_insert<T: 'static>(channels: &mut ChannelMap, value: T)
    ensures
        channel_count(*old(channels)) <= channel_count(*final(channels)) <= channel_count(
            *old(channels),
        ) + 1,
        channel_count(*final(channels)) > 0,
{
    channels.map.insert(value);
}

/// Calls `tokio::sync::broadcast::channel` and keeps the sender. The call
/// panics on a capacity of zero or of more than half of `usize::MAX`. It
/// sets room for the whole capacity aside at once, rounded up to a power of
/// two.
#[verifier::external_body]
fn new_fanout<M: Clone>(capacity: usize) -> (tx: tokio::sync::broadcast::Sender<M>)
    requires
        0 < capacity <= usize::MAX / 2,
{
    tokio::sync::broadcast::channel(capacity).0
}

/// Calls `clone` on a `tokio::sync::broadcast::Sender`: one more handle on
/// the same channel.
#[verifier::external_body]
fn clone_fanout<M>(tx: &tokio::sync::broadcast::Sender<M>) -> (handle:
    tokio::sync::broadcast::Sender<M>) {
    tx.clone()
}

/// Calls `tokio::sync::broadcast::Sender::subscribe`: a receiver that sees
/// what is sent from now on. The call panics where a channel has a quarter
/// of `usize::MAX` receivers already.
#[verifier::external_body]
fn subscribe_fanout<M>(tx: &tokio::sync::broadcast::Sender<M>) -> (rx:
    tokio::sync::broadcast::Receiver<M>) {
    tx.subscribe()
}

/// Calls `tokio::sync::mpsc::channel`. The call panics on a buffer of zero
/// or of more than an eighth of `usize::MAX`.
#[verifier::external_body]
fn new_queue<M>(buffer: usize) -> (halves: (
    tokio::sync::mpsc::Sender<M>,
    tokio::sync::mpsc::Receiver<M>,
))
    requires
        0 < buffer <= usize::MAX / 8,
{
    tokio::sync::mpsc::channel(buffer)
}

impl Capacity {
    #[verifier::type_invariant]
    spec fn well_formed(self) -> bool {
        is_capacity(self.value)
    }

    closed spec fn spec_get(&self) -> usize {
        self.value
    }

    /// The capacity `value`, if a channel can be made with it.
    fn new(value: usize) -> (capacity: Option<Capacity>)
        ensures
            capacity is Some <==> is_capacity(value),
            capacity is Some ==> capacity->0.spec_get() == value,
    {
        if 0 < value && value <= usize::MAX / 8 {
            Some(Capacity { value })
        } else {
            None
        }
    }

    /// The number that this capacity stands for.
    #[verifier::when_used_as_spec(spec_get)]
    fn get(&self) -> (value: usize)
        ensures
            value == self.spec_get(),
            is_capacity(value),
    {
        proof {
            use_type_invariant(self);
        }
        self.value
    }
}

impl Router {

    /// The number of channel handles that the bus holds.
    pub closed spec fn handles(&self) -> nat {
        channel_count(self.channels)
    }

    /// The capacity that the bus gives to each new channel.
    pub closed spec fn spec_capacity(&self) -> usize {
        self.capacity.spec_get()
    }

    /// A bus without any channel, whose channels will hold
    /// `ROUTER_MESSAGE_SIZE` values.
    pub fn new() -> (router: Router)
        ensures
            router.handles() == 0,
            router.capacity() == ROUTER_MESSAGE_SIZE,
    {
        Router { channels: registry_new(), capacity: Capacity { value: ROUTER_MESSAGE_SIZE } }
    }

    /// A bus without any channel, whose channels will be made with
    /// `capacity`; none where no channel can be made with that capacity. A
    /// fan-out channel keeps the next power of two at or above `capacity`
    /// values for a subscriber that falls behind, so a late subscriber loses
    /// what exceeds `capacity` only where `capacity` is itself a power of
    /// two, and less otherwise. A queue holds `capacity` values.
    pub fn with_capacity(capacity: usize) -> (router: Option<Router>)
        ensures
            router is Some <==> is_capacity(capacity),
            router is Some ==> router->0.handles() == 0 && router->0.capacity() == capacity,
    {
        match Capacity::new(capacity) {
            Some(capacity) => Some(Router { channels: registry_new(), capacity }),
            None => None,
        }
    }

    /// The number of channel handles that the bus holds.
    pub fn len(&self) -> (len: usize)
        ensures
            len == self.handles(),
    {
        registry_len(&self.channels)
    }

    /// The capacity that the bus gives to each new channel.
    #[verifier::when_used_as_spec(spec_capacity)]
    pub fn capacity(&self) -> (capacity: usize)
        ensures
            capacity == self.spec_capacity(),
            is_capacity(capacity),
    {
        self.capacity.get()
    }

    /// The fan-out channel of messages of type `M`: the one that the bus
    /// holds, or else a new one, which the bus holds from then on. No
    /// channel ever leaves the bus.
    pub fn announce<M: Send + Sync + Clone + 'static>(&mut self) -> (tx:
        tokio::sync::broadcast::Sender<M>)
        ensures
            old(self).handles() <= final(self).handles() <= old(self).handles() + 1,
            final(self).handles() > 0,
            final(self).capacity() == old(self).capacity(),
    {
        match registry_get::<tokio::sync::broadcast::Sender<M>>(&self.channels) {
            Some(tx) => clone_fanout(tx),
            None => {
                let tx = new_fanout::<M>(self.capacity.get());
                registry_insert(&mut self.channels, clone_fanout(&tx));
                tx
            },
        }
    }

    /// A new subscription to the fan-out channel of messages of type `M`,
    /// which is made if the bus does not hold it yet.
    pub fn subscribe<M: Send + Sync + Clone + 'static>(&mut self) -> (rx:
        tokio::sync::broadcast::Receiver<M>)
        ensures
            old(self).handles() <= final(self).handles() <= old(self).handles() + 1,
            final(self).handles() > 0,
            final(self).capacity() == old(self).capacity(),
    {
        let tx = self.announce::<M>();
        subscribe_fanout(&tx)
    }

    /// Makes the single-consumer queue of messages of type `M` and returns
    /// its reading end, the only one there is. The bus keeps the sending end
    /// as the address of `M`. A reading end cannot be handed out twice, so
    /// the bus is meant to be asked once for each type: a second call makes
    /// a second queue, whose sending end takes the place of the first as the
    /// address of `M`, while the handles taken from the first address go on
    /// to feed the first queue.
    pub fn create_channel<M: Send + Sync + 'static>(&mut self) -> (rx: tokio::sync::mpsc::Receiver<
        M,
    >)
        ensures
            old(self).handles() <= final(self).handles() <= old(self).handles() + 1,
            final(self).handles() > 0,
            final(self).capacity() == old(self).capacity(),
    {
        let (tx, rx) = new_queue::<M>(self.capacity.get());
        registry_insert(&mut self.channels, tx);
        rx
    }

    /// The sending end of the single-consumer queue of messages of type `M`,
    /// if that queue was made.
    pub fn get_address<M: Send + Sync + 'static>(&self) -> (tx: Option<
        &tokio::sync::mpsc::Sender<M>,
    >)
        ensures
            tx is Some ==> self.handles() > 0,
    {
        registry_get::<tokio::sync::mpsc::Sender<M>>(&self.channels)
    }
}

} // verus!

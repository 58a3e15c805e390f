//! The connection registry: one fan-out channel per connected user.
use crate::presence::{presence_key_of, set_user_offline, set_user_online, PresenceCommand, OFFLINE_TTL_SECS, ONLINE_TTL_SECS};
use dashmap::DashMap;
use tokio::sync::broadcast::Sender;
use vstd::prelude::*;

verus! {

/// dashmap's concurrent map, opaque to proofs; its entries are named by
/// `table_channels`.
#[verifier::external_type_specification]
#[verifier::external_body]
#[verifier::reject_recursive_types(K)]
#[verifier::reject_recursive_types(V)]
#[verifier::reject_recursive_types(S)]
pub struct ExDashMap<K, V, S>(DashMap<K, V, S>);

/// The sending half of a tokio broadcast channel, opaque to proofs.
#[verifier::external_type_specification]
#[verifier::external_body]
#[verifier::reject_recursive_types(T)]
pub struct ExSender<T>(Sender<T>);

/// Number of undelivered events a channel buffers for a slow subscriber.
pub const CHANNEL_CAPACITY: usize = 100;

/// The entries of a channel table: each user's sender. A handle cloned from
/// an entry stands for the same channel, so it equals the entry here.
pub uninterp spec fn table_channels(t: DashMap<u128, Sender<String>>) -> Map<u128, Sender<String>>;

/// Relies on `tokio::sync::broadcast::channel`, which panics on a zero
/// capacity or one above `usize::MAX / 2`. The first receiver is dropped:
/// subscribers attach later through `Sender::subscribe`.
#[verifier::external_body]
fn open_channel(capacity: usize) -> (r: Sender<String>)
    requires
        0 < capacity <= usize::MAX / 2,
{
    tokio::sync::broadcast::channel(capacity).0
}

/// Relies on `Sender::send`: `Ok` exactly when at least one receiver is
/// subscribed, which depends on the running connections.
#[verifier::external_body]
fn channel_send(tx: &Sender<String>, payload: String) -> (r: bool) {
    tx.send(payload).is_ok()
}

/// Relies on `DashMap::new`: a map without entries.
#[verifier::external_body]
fn table_new() -> (r: DashMap<u128, Sender<String>>)
    ensures
        table_channels(r).dom() == Set::<u128>::empty(),
{
    DashMap::new()
}

/// Relies on `DashMap::contains_key`.
#[verifier::external_body]
fn table_contains(t: &DashMap<u128, Sender<String>>, user: u128) -> (r: bool)
    ensures
        r == table_channels(*t).contains_key(user),
{
    t.contains_key(&user)
}

/// Relies on `DashMap::get`: a handle to the entry's sender, if there is one.
#[verifier::external_body]
fn table_get(t: &DashMap<u128, Sender<String>>, user: u128) -> (r: Option<Sender<String>>)
    ensures
        r.is_some() == table_channels(*t).contains_key(user),
        r matches Some(tx) ==> tx == table_channels(*t)[user],
{
    t.get(&user).map(|e| e.value().clone())
}

/// Relies on `DashMap::entry` and `Entry::or_insert`: an existing entry is
/// kept, an absent one is filled with `fresh`; a handle to the entry's sender
/// is returned.
#[verifier::external_body]
fn table_get_or_insert(
    t: &mut DashMap<u128, Sender<String>>,
    user: u128,
    fresh: Sender<String>,
) -> (r: Sender<String>)
    ensures
        table_channels(*old(t)).contains_key(user) ==> r == table_channels(*old(t))[user],
        !table_channels(*old(t)).contains_key(user) ==> r == fresh,
        table_channels(*final(t)) == table_channels(*old(t)).insert(user, r),
{
    t.entry(user).or_insert(fresh).value().clone()
}

/// Relies on `DashMap::remove`: the entry is gone afterwards, present or not.
#[verifier::external_body]
fn table_remove(t: &mut DashMap<u128, Sender<String>>, user: u128)
    ensures
        table_channels(*final(t)) == table_channels(*old(t)).remove(user),
{
    t.remove(&user);
}

/// What became of one event handed to the registry for one user.
#[derive(PartialEq, Eq, Structural, Clone, Copy, Debug)]
pub enum RouteOutcome {
    /// Handed to the user's channel, which had at least one live subscriber.
    Delivered,
    /// The user has a channel, but nobody listens on it any more.
    NoSubscriber,
    /// The user has no channel: the caller falls back to the unread counter.
    NotConnected,
}

/// The members of `s`, in order, that have no channel in `connected`.
pub open spec fn without_channel(s: Seq<u128>, connected: Set<u128>) -> Seq<u128>
    decreases s.len(),
{
    if s.len() == 0 {
        s
    } else {
        let p = without_channel(s.drop_last(), connected);
        if connected.contains(s.last()) {
            p
        } else {
            p.push(s.last())
        }
    }
}

/// Maps each connected user to the one broadcast channel that all of that
/// user's connections subscribe to.
pub struct ConnectionRegistry {
    channels: DashMap<u128, Sender<String>>,
}

impl ConnectionRegistry {
    /// Each connected user's channel.
    pub closed spec fn channels(&self) -> Map<u128, Sender<String>> {
        table_channels(self.channels)
    }

    /// The users that currently have a channel.
    pub open spec fn connected(&self) -> Set<u128> {
        self.channels().dom()
    }

    pub fn new() -> (r: ConnectionRegistry)
        ensures
            r.connected() == Set::<u128>::empty(),
    {
        ConnectionRegistry { channels: table_new() }
    }

    /// Returns the user's channel, creating it if the user has none; the flag
    /// tells whether it was created by this call. An existing channel is kept
    /// and handed back, and no other user's entry changes. Taking `&mut self`
    /// makes the test and the insertion one step: two registrations can never
    /// both create.
    pub fn register(&mut self, user: u128) -> (r: (Sender<String>, bool))
        ensures
            final(self).channels() == old(self).channels().insert(user, r.0),
            old(self).connected().contains(user) ==> r.0 == old(self).channels()[user],
            r.1 == !old(self).connected().contains(user),
    {
        let existed = table_contains(&self.channels, user);
        let fresh = open_channel(CHANNEL_CAPACITY);
        let tx = table_get_or_insert(&mut self.channels, user, fresh);
        (tx, !existed)
    }

    pub fn is_connected(&self, user: u128) -> (r: bool)
        ensures
            r == self.connected().contains(user),
    {
        table_contains(&self.channels, user)
    }

    /// Hands one serialized event to the user's channel, if the user has one.
    pub fn route(&self, user: u128, payload: String) -> (r: RouteOutcome)
        ensures
            (r == RouteOutcome::NotConnected) == !self.connected().contains(user),
    {
        match table_get(&self.channels, user) {
            Some(tx) => {
                if channel_send(&tx, payload) {
                    RouteOutcome::Delivered
                } else {
                    RouteOutcome::NoSubscriber
                }
            },
            None => RouteOutcome::NotConnected,
        }
    }

    /// Hands one serialized event to each recipient's channel, in order, and
    /// returns the recipients that have no channel, so that the caller can
    /// count the event as unread for them.
    pub fn fan_out(&self, recipients: &Vec<u128>, payload: &String) -> (r: Vec<u128>)
        ensures
            r@ == without_channel(recipients@, self.connected()),
    {
        let mut offline: Vec<u128> = Vec::new();
        let mut i: usize = 0;
        while i < recipients.len()
            invariant
                i <= recipients.len(),
                offline@ == without_channel(recipients@.subrange(0, i as int), self.connected()),
            decreases recipients.len() - i,
        {
            proof {
                assert(recipients@.subrange(0, i as int + 1).drop_last() == recipients@.subrange(0, i as int));
            }
            let user = recipients[i];
            let outcome = self.route(user, payload.clone());
            if outcome == RouteOutcome::NotConnected {
                offline.push(user);
            }
            i = i + 1;
        }
        proof {
            assert(recipients@.subrange(0, recipients@.len() as int) == recipients@);
        }
        offline
    }

    /// A new connection of `user`: its channel, shared with the user's other
    /// connections, and the presence write that marks the user online.
    pub fn connect(&mut self, user: u128) -> (r: (Sender<String>, PresenceCommand))
        ensures
            final(self).channels() == old(self).channels().insert(user, r.0),
            old(self).connected().contains(user) ==> r.0 == old(self).channels()[user],
            r.1 matches PresenceCommand::SetPresence { key, user_id, online, ttl_secs }
                && key@ == presence_key_of(user) && user_id == user && online && ttl_secs == ONLINE_TTL_SECS,
    {
        let (tx, _) = self.register(user);
        (tx, set_user_online(user))
    }

    /// The end of a connection of `user`: the channel is removed, so that
    /// later events count as unread, and the presence write that marks the
    /// user offline is returned.
    pub fn disconnect(&mut self, user: u128) -> (r: PresenceCommand)
        ensures
            final(self).channels() == old(self).channels().remove(user),
            r matches PresenceCommand::SetPresence { key, user_id, online, ttl_secs }
                && key@ == presence_key_of(user) && user_id == user && !online && ttl_secs == OFFLINE_TTL_SECS,
    {
        self.unregister(user);
        set_user_offline(user)
    }

    /// Removes the user's channel; nothing happens if there is none.
    pub fn unregister(&mut self, user: u128)
        ensures
            final(self).channels() == old(self).channels().remove(user),
    {
        table_remove(&mut self.channels, user);
    }
}

/// Registering a user twice, one registration after the other as the
/// registry's exclusive access orders them, yields one channel: the second
/// registration creates nothing and hands back the very channel the first one
/// returned and left in the registry, so every connection of the user listens
/// on the channel that events for the user are sent to.
pub proof fn one_channel_per_user(
    r0: ConnectionRegistry,
    r1: ConnectionRegistry,
    r2: ConnectionRegistry,
    user: u128,
    first: (Sender<String>, bool),
    second: (Sender<String>, bool),
)
    requires
        r1.channels() == r0.channels().insert(user, first.0),
        r0.connected().contains(user) ==> first.0 == r0.channels()[user],
        first.1 == !r0.connected().contains(user),
        r2.channels() == r1.channels().insert(user, second.0),
        r1.connected().contains(user) ==> second.0 == r1.channels()[user],
        second.1 == !r1.connected().contains(user),
    ensures
        !second.1,
        second.0 == first.0,
        r2.channels() == r1.channels(),
        r2.channels()[user] == first.0,
{
    assert(r1.channels().contains_key(user));
    assert(r1.channels().insert(user, second.0) =~= r1.channels());
}

} // verus!

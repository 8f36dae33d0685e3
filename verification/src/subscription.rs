//! Subscriptions to state events, each kept alive for a number of minutes.

use vstd::prelude::*;
use vstd::string::*;

use crate::ids::{id_spec, make_id};
use crate::keyed::Keyed;

verus! {

/// Why a subscription request was refused.
#[derive(Debug, Clone, Copy, PartialEq, Eq, Structural)]
pub enum SubscribeError {
    NotFound,
    InvalidTtl,
}

impl SubscribeError {
    /// The numeric code clients see.
    pub fn code(&self) -> (r: u32)
        ensures
            r == match *self {
                SubscribeError::NotFound => 1u32,
                SubscribeError::InvalidTtl => 2u32,
            },
    {
        match self {
            SubscribeError::NotFound => 1,
            SubscribeError::InvalidTtl => 2,
        }
    }
}

/// The longest lifetime of a subscription, in minutes.
pub const MAX_TTL_MINS: u32 = 99;

/// The lifetime a request for `ttl_mins` minutes gets, in milliseconds.
pub open spec fn ttl_ms(ttl_mins: u32) -> nat {
    (if ttl_mins < MAX_TTL_MINS {
        ttl_mins
    } else {
        MAX_TTL_MINS
    }) as nat * 60_000
}

/// The expiry of each subscription, in milliseconds of a monotonic clock.
#[derive(Debug)]
pub struct SubscriptionManager {
    pub subscribers: Keyed<u64>,
}

impl View for SubscriptionManager {
    type V = Map<Seq<char>, u64>;

    open spec fn view(&self) -> Map<Seq<char>, u64> {
        self.subscribers@
    }
}

/// The lifetime a request for `ttl_mins` minutes gets, in milliseconds.
pub fn lifetime_ms(ttl_mins: u32) -> (r: u64)
    ensures
        r == ttl_ms(ttl_mins),
{
    let mins: u64 = if ttl_mins < MAX_TTL_MINS {
        ttl_mins as u64
    } else {
        MAX_TTL_MINS as u64
    };
    mins * 60_000
}

fn expiry(ttl_mins: u32, now_ms: u64) -> (r: u64)
    requires
        now_ms + ttl_ms(ttl_mins) <= u64::MAX,
    ensures
        r == now_ms + ttl_ms(ttl_mins),
{
    now_ms + lifetime_ms(ttl_mins)
}

impl SubscriptionManager {
    /// No subscription.
    pub fn new() -> (r: SubscriptionManager)
        ensures
            r@ == Map::<Seq<char>, u64>::empty(),
    {
        SubscriptionManager { subscribers: Keyed::new() }
    }

    /// Registers a new subscription for `ttl_mins` minutes (at most 99) from `now_ms`, and
    /// returns its id: "sub-" and the unique text `unique` (such as a random UUID).
    pub fn create(&mut self, unique: &str, ttl_mins: u32, now_ms: u64) -> (r: String)
        requires
            now_ms + ttl_ms(ttl_mins) <= u64::MAX,
        ensures
            r@ == id_spec("sub"@, unique@),
            final(self)@ == old(self)@.insert(r@, (now_ms + ttl_ms(ttl_mins)) as u64),
    {
        let id = make_id("sub", unique);
        let until = expiry(ttl_mins, now_ms);
        self.subscribers.insert(id.clone(), until);
        id
    }

    /// Extends the subscription `id` to `ttl_mins` minutes (at most 99) from `now_ms`.
    pub fn continue_sub(&mut self, id: &str, ttl_mins: u32, now_ms: u64) -> (r: Result<(), SubscribeError>)
        requires
            now_ms + ttl_ms(ttl_mins) <= u64::MAX,
        ensures
            old(self)@.contains_key(id@) ==> r is Ok && final(self)@ == old(self)@.insert(
                id@,
                (now_ms + ttl_ms(ttl_mins)) as u64,
            ),
            !old(self)@.contains_key(id@) ==> r == Err::<(), SubscribeError>(SubscribeError::NotFound)
                && final(self)@ == old(self)@,
    {
        if !self.subscribers.contains(id) {
            return Err(SubscribeError::NotFound);
        }
        let until = expiry(ttl_mins, now_ms);
        self.subscribers.insert(String::from_str(id), until);
        Ok(())
    }

    /// Ends the subscription `id`.
    pub fn cancel(&mut self, id: &str) -> (r: Result<(), SubscribeError>)
        ensures
            final(self)@ == old(self)@.remove(id@),
            old(self)@.contains_key(id@) ==> r is Ok,
            !old(self)@.contains_key(id@) ==> r == Err::<(), SubscribeError>(SubscribeError::NotFound),
    {
        match self.subscribers.remove(id) {
            Some(_) => Ok(()),
            None => Err(SubscribeError::NotFound),
        }
    }

    /// Drops the subscriptions that expired by `now_ms` and tells whether any is left.
    pub fn has_active_subscribers(&mut self, now_ms: u64) -> (r: bool)
        ensures
            final(self)@ == Map::new(
                |k: Seq<char>| old(self)@.contains_key(k) && old(self)@[k] > now_ms,
                |k: Seq<char>| old(self)@[k],
            ),
            r == (final(self)@ != Map::<Seq<char>, u64>::empty()),
    {
        self.subscribers.retain_above(now_ms);
        !self.subscribers.is_empty()
    }
}

/// A subscription is active until its expiry and gone after it: cancelling removes it, and a
/// sweep keeps exactly the subscriptions whose expiry lies after the sweep time.
pub proof fn lemma_sweep_keeps_live(m: Map<Seq<char>, u64>, now_ms: u64, id: Seq<char>)
    requires
        m.contains_key(id),
    ensures
        Map::new(|k: Seq<char>| m.contains_key(k) && m[k] > now_ms, |k: Seq<char>| m[k]).contains_key(id)
            <==> m[id] > now_ms,
{
}

/// A subscription created with any lifetime is still active just before that lifetime ends:
/// created at `now_ms` for `ttl_mins > 0` minutes, a sweep at any earlier instant keeps it.
pub proof fn lemma_created_subscription_is_active(
    m: Map<Seq<char>, u64>,
    id: Seq<char>,
    ttl_mins: u32,
    now_ms: u64,
    later_ms: u64,
)
    requires
        ttl_mins > 0,
        now_ms + ttl_ms(ttl_mins) <= u64::MAX,
        now_ms <= later_ms < now_ms + ttl_ms(ttl_mins),
    ensures
        ({
            let after = m.insert(id, (now_ms + ttl_ms(ttl_mins)) as u64);
            Map::new(|k: Seq<char>| after.contains_key(k) && after[k] > later_ms, |k: Seq<char>| after[k]).contains_key(id)
        }),
{
}

/// Creating a subscription: its id is "sub-" followed by the unique text, it expires
/// `min(ttl_mins, 99)` minutes after the creation instant, the other subscriptions keep their
/// expiry, and with a lifetime of at least a minute a sweep at the creation instant finds an
/// active subscriber.
pub proof fn lemma_create_registers(m: Map<Seq<char>, u64>, unique: Seq<char>, ttl_mins: u32, now_ms: u64)
    requires
        now_ms + ttl_ms(ttl_mins) <= u64::MAX,
    ensures
        ({
            let id = id_spec("sub"@, unique);
            let after = m.insert(id, (now_ms + ttl_ms(ttl_mins)) as u64);
            &&& id.take(4) == "sub-"@
            &&& after.contains_key(id) && after[id] == now_ms + ttl_ms(ttl_mins)
            &&& ttl_ms(ttl_mins) == (if ttl_mins < 99 { ttl_mins as nat } else { 99nat }) * 60_000
            &&& forall|k: Seq<char>| k != id ==> (#[trigger] after.contains_key(k) == m.contains_key(k))
            &&& forall|k: Seq<char>| k != id && m.contains_key(k) ==> #[trigger] after[k] == m[k]
            &&& ttl_mins >= 1 ==> Map::new(
                |k: Seq<char>| after.contains_key(k) && after[k] > now_ms,
                |k: Seq<char>| after[k],
            ) != Map::<Seq<char>, u64>::empty()
        }),
{
    let id = id_spec("sub"@, unique);
    let after = m.insert(id, (now_ms + ttl_ms(ttl_mins)) as u64);
    reveal_strlit("sub");
    reveal_strlit("-");
    reveal_strlit("sub-");
    assert(id.take(4) =~= "sub-"@);
    if ttl_mins >= 1 {
        let swept = Map::new(|k: Seq<char>| after.contains_key(k) && after[k] > now_ms, |k: Seq<char>| after[k]);
        assert(swept.contains_key(id));
        assert(!Map::<Seq<char>, u64>::empty().contains_key(id));
    }
}

/// A subscription lives until it is cancelled: right after it was created, cancelling it
/// succeeds; afterwards it is gone, so cancelling or extending it again finds nothing, and the
/// other subscriptions keep their expiry.
pub proof fn lemma_cancel_after_create(m: Map<Seq<char>, u64>, id: Seq<char>, expiry_ms: u64)
    ensures
        m.insert(id, expiry_ms).contains_key(id),
        !m.insert(id, expiry_ms).remove(id).contains_key(id),
        forall|k: Seq<char>|
            k != id ==> (#[trigger] m.insert(id, expiry_ms).remove(id).contains_key(k) == m.contains_key(k)),
        forall|k: Seq<char>|
            k != id && m.contains_key(k) ==> #[trigger] m.insert(id, expiry_ms).remove(id)[k] == m[k],
{
}

} // verus!

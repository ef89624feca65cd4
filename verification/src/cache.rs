use std::collections::HashMap;
use std::time::Instant;

use vstd::prelude::*;

verus! {

broadcast use vstd::std_specs::hash::group_hash_axioms;

#[verifier::external_type_specification]
#[verifier::external_body]
pub struct ExInstant(Instant);

/// The current moment of the monotonic clock, from `std::time::Instant::now`.
/// Nothing is stated of it.
#[verifier::external_body]
fn instant_now() -> (r: Instant) {
    Instant::now()
}

/// The nanoseconds that passed since `origin`, from `Instant::elapsed` and
/// `Duration::as_nanos`. How many they are is the clock's; nothing is stated.
/// (std documents `Instant` as monotonic, so readings against one origin
/// never decrease; the cache keeps its latest reading to carry that forward
/// in its own contracts.)
#[verifier::external_body]
fn nanos_since(origin: &Instant) -> (r: u128) {
    origin.elapsed().as_nanos()
}

/// How long ago `inserted` was at `now`, never below zero (as
/// `Instant::elapsed` saturates).
pub open spec fn spec_age(inserted: u128, now: u128) -> int {
    if now >= inserted {
        now - inserted
    } else {
        0
    }
}

/// An entry stored at `inserted` is still served at `now` while its age is
/// below the time to live.
pub open spec fn spec_fresh(inserted: u128, now: u128, ttl_nanos: u128) -> bool {
    spec_age(inserted, now) < ttl_nanos
}

/// What a lookup of `user` at `now` answers: the stored body while fresh.
pub open spec fn spec_lookup(
    entries: Map<u128, (Seq<char>, u128)>,
    ttl_nanos: u128,
    user: u128,
    now: u128,
) -> Option<Seq<char>> {
    if entries.contains_key(user) && spec_fresh(entries[user].1, now, ttl_nanos) {
        Some(entries[user].0)
    } else {
        None
    }
}

/// The entries after a lookup of `user` at `now`: a stale entry is dropped.
pub open spec fn spec_after_lookup(
    entries: Map<u128, (Seq<char>, u128)>,
    ttl_nanos: u128,
    user: u128,
    now: u128,
) -> Map<u128, (Seq<char>, u128)> {
    if entries.contains_key(user) && !spec_fresh(entries[user].1, now, ttl_nanos) {
        entries.remove(user)
    } else {
        entries
    }
}

/// A per-user cache of rendered task lists with a time to live. It lives
/// in one process; entries are dropped when stale or invalidated.
pub struct TasksCache {
    ttl_nanos: u128,
    origin: Instant,
    entries: HashMap<u128, (String, u128)>,
    latest: u128,
}

impl TasksCache {
    /// The entries: for each user, the stored body and when (nanoseconds
    /// after the cache was made) it was stored.
    pub closed spec fn entries(&self) -> Map<u128, (Seq<char>, u128)> {
        self.entries@.map_values(|e: (String, u128)| (e.0@, e.1))
    }

    /// How long an entry is served, in nanoseconds.
    pub closed spec fn ttl_nanos(&self) -> u128 {
        self.ttl_nanos
    }

    /// The latest moment (nanoseconds after the cache was made) at which the
    /// cache read its clock; the clock-driven calls never act before it.
    pub closed spec fn latest(&self) -> u128 {
        self.latest
    }

    /// Reads the monotonic clock: the moment now, never before the latest
    /// reading, which it becomes.
    fn tick(&mut self) -> (now: u128)
        ensures
            now >= old(self).latest(),
            final(self).latest() == now,
            final(self).entries() == old(self).entries(),
            final(self).ttl_nanos() == old(self).ttl_nanos(),
    {
        let reading = nanos_since(&self.origin);
        let now = if reading > self.latest {
            reading
        } else {
            self.latest
        };
        self.latest = now;
        assert(self.entries() =~= old(self).entries());
        now
    }

    /// An empty cache whose entries live `ttl_seconds` seconds.
    pub fn new(ttl_seconds: u64) -> (r: TasksCache)
        ensures
            r.entries() == Map::<u128, (Seq<char>, u128)>::empty(),
            r.ttl_nanos() == ttl_seconds * 1_000_000_000,
            r.latest() == 0,
    {
        let r = TasksCache {
            ttl_nanos: (ttl_seconds as u128) * 1_000_000_000,
            origin: instant_now(),
            entries: HashMap::new(),
            latest: 0,
        };
        assert(r.entries() =~= Map::<u128, (Seq<char>, u128)>::empty());
        r
    }

    /// The cached body for a user at the moment `now` (nanoseconds after the
    /// cache was made), if present and fresh; a stale entry is dropped.
    pub fn get_at(&mut self, user_id: u128, now: u128) -> (r: Option<String>)
        ensures
            final(self).ttl_nanos() == old(self).ttl_nanos(),
            final(self).latest() == old(self).latest(),
            final(self).entries() == spec_after_lookup(
                old(self).entries(),
                old(self).ttl_nanos(),
                user_id,
                now,
            ),
            match r {
                Some(body) => spec_lookup(
                    old(self).entries(),
                    old(self).ttl_nanos(),
                    user_id,
                    now,
                ) == Some(body@),
                None => spec_lookup(old(self).entries(), old(self).ttl_nanos(), user_id, now)
                    is None,
            },
    {
        let ghost before = self.entries@;
        let stale = match self.entries.get(&user_id) {
            Some(entry) => {
                let age: u128 = if now >= entry.1 {
                    now - entry.1
                } else {
                    0
                };
                if age < self.ttl_nanos {
                    return Some(entry.0.clone());
                }
                true
            },
            None => false,
        };
        if stale {
            self.entries.remove(&user_id);
            assert(self.entries() =~= old(self).entries().remove(user_id));
        }
        None
    }

    /// Stores the body for a user at the moment `now`, replacing any entry.
    pub fn set_at(&mut self, user_id: u128, value: String, now: u128)
        ensures
            final(self).ttl_nanos() == old(self).ttl_nanos(),
            final(self).latest() == old(self).latest(),
            final(self).entries() == old(self).entries().insert(user_id, (value@, now)),
    {
        self.entries.insert(user_id, (value, now));
        assert(self.entries() =~= old(self).entries().insert(user_id, (value@, now)));
    }

    /// Drops the cached view of one user. Called whenever a task is assigned
    /// to that user.
    pub fn invalidate(&mut self, user_id: u128)
        ensures
            final(self).ttl_nanos() == old(self).ttl_nanos(),
            final(self).latest() == old(self).latest(),
            final(self).entries() == old(self).entries().remove(user_id),
    {
        self.entries.remove(&user_id);
        assert(self.entries() =~= old(self).entries().remove(user_id));
    }

    /// The cached body for a user, if present and fresh now; a stale entry
    /// is dropped. The moment is read from the monotonic clock: it is not
    /// before any earlier reading, so in particular not before any entry was
    /// stored through `set`.
    pub fn get(&mut self, user_id: u128) -> (r: Option<String>)
        ensures
            final(self).ttl_nanos() == old(self).ttl_nanos(),
            final(self).latest() >= old(self).latest(),
            final(self).entries() == spec_after_lookup(
                old(self).entries(),
                old(self).ttl_nanos(),
                user_id,
                final(self).latest(),
            ),
            match r {
                Some(body) => spec_lookup(
                    old(self).entries(),
                    old(self).ttl_nanos(),
                    user_id,
                    final(self).latest(),
                ) == Some(body@),
                None => spec_lookup(
                    old(self).entries(),
                    old(self).ttl_nanos(),
                    user_id,
                    final(self).latest(),
                ) is None,
            },
            r matches Some(body) ==> {
                &&& old(self).entries().contains_key(user_id)
                &&& old(self).entries()[user_id].0 == body@
                &&& old(self).entries()[user_id].1 <= old(self).latest() ==> final(self).latest()
                    - old(self).entries()[user_id].1 < old(self).ttl_nanos()
            },
            old(self).entries().contains_key(user_id) && old(self).entries()[user_id].1 <= old(
                self,
            ).latest() && final(self).latest() - old(self).entries()[user_id].1 >= old(
                self,
            ).ttl_nanos() ==> r is None && !final(self).entries().contains_key(user_id),
    {
        let now = self.tick();
        self.get_at(user_id, now)
    }

    /// Stores the body for a user now, replacing any entry. The moment is
    /// read from the monotonic clock, not before any earlier reading.
    pub fn set(&mut self, user_id: u128, value: String)
        ensures
            final(self).ttl_nanos() == old(self).ttl_nanos(),
            final(self).latest() >= old(self).latest(),
            final(self).entries() == old(self).entries().insert(
                user_id,
                (value@, final(self).latest()),
            ),
    {
        let now = self.tick();
        self.set_at(user_id, value, now);
    }
}

/// A body stored for a user is served back to that user while it is fresh.
pub proof fn law_lookup_after_store(
    entries: Map<u128, (Seq<char>, u128)>,
    ttl_nanos: u128,
    user: u128,
    body: Seq<char>,
    stored_at: u128,
    now: u128,
)
    requires
        spec_fresh(stored_at, now, ttl_nanos),
    ensures
        spec_lookup(entries.insert(user, (body, stored_at)), ttl_nanos, user, now) == Some(body),
        spec_after_lookup(entries.insert(user, (body, stored_at)), ttl_nanos, user, now)
            == entries.insert(user, (body, stored_at)),
{
}

/// After a user's view is invalidated, a lookup for that user misses.
pub proof fn law_lookup_after_invalidate(
    entries: Map<u128, (Seq<char>, u128)>,
    ttl_nanos: u128,
    user: u128,
    now: u128,
)
    ensures
        spec_lookup(entries.remove(user), ttl_nanos, user, now) is None,
{
}

/// An entry whose age has reached the time to live is never served, and the
/// lookup drops it.
pub proof fn law_stale_entry_dropped(
    entries: Map<u128, (Seq<char>, u128)>,
    ttl_nanos: u128,
    user: u128,
    now: u128,
)
    requires
        entries.contains_key(user),
        spec_age(entries[user].1, now) >= ttl_nanos,
    ensures
        spec_lookup(entries, ttl_nanos, user, now) is None,
        spec_after_lookup(entries, ttl_nanos, user, now) == entries.remove(user),
        !spec_after_lookup(entries, ttl_nanos, user, now).contains_key(user),
{
}

/// With a time to live of zero nothing is ever served.
pub proof fn law_zero_ttl_never_serves(
    entries: Map<u128, (Seq<char>, u128)>,
    user: u128,
    now: u128,
)
    ensures
        spec_lookup(entries, 0, user, now) is None,
{
}

/// Storing, invalidating or looking up one user's view leaves what any other
/// user is served unchanged.
pub proof fn law_other_users_unaffected(
    entries: Map<u128, (Seq<char>, u128)>,
    ttl_nanos: u128,
    user: u128,
    other: u128,
    body: Seq<char>,
    stored_at: u128,
    now: u128,
    later: u128,
)
    requires
        user != other,
    ensures
        spec_lookup(entries.insert(user, (body, stored_at)), ttl_nanos, other, later)
            == spec_lookup(entries, ttl_nanos, other, later),
        spec_lookup(entries.remove(user), ttl_nanos, other, later) == spec_lookup(
            entries,
            ttl_nanos,
            other,
            later,
        ),
        spec_lookup(spec_after_lookup(entries, ttl_nanos, user, now), ttl_nanos, other, later)
            == spec_lookup(entries, ttl_nanos, other, later),
{
}

/// A lookup changes nothing it would answer: looking up again at the same
/// moment answers the same.
pub proof fn law_lookup_repeatable(
    entries: Map<u128, (Seq<char>, u128)>,
    ttl_nanos: u128,
    user: u128,
    now: u128,
)
    ensures
        spec_lookup(spec_after_lookup(entries, ttl_nanos, user, now), ttl_nanos, user, now)
            == spec_lookup(entries, ttl_nanos, user, now),
{
}

/// Through the clock, a body stored by `set` (stamped with the reading it
/// became the latest) is looked up by a later `get` at a reading not before
/// it, so its age is exactly the time between the two readings: it is
/// served, unchanged, while that time is below the time to live, and never
/// once it has reached the time to live.
pub proof fn law_clock_lookup_after_store(
    entries: Map<u128, (Seq<char>, u128)>,
    ttl_nanos: u128,
    user: u128,
    body: Seq<char>,
    stored_at: u128,
    now: u128,
)
    requires
        stored_at <= now,
    ensures
        now - stored_at < ttl_nanos ==> spec_lookup(
            entries.insert(user, (body, stored_at)),
            ttl_nanos,
            user,
            now,
        ) == Some(body),
        now - stored_at >= ttl_nanos ==> spec_lookup(
            entries.insert(user, (body, stored_at)),
            ttl_nanos,
            user,
            now,
        ) is None,
        now - stored_at >= ttl_nanos ==> !spec_after_lookup(
            entries.insert(user, (body, stored_at)),
            ttl_nanos,
            user,
            now,
        ).contains_key(user),
{
}

/// A stored body stays served at every moment between its storing and the
/// end of its time to live, so repeated views within that span all hit.
pub proof fn law_fresh_until_ttl(stored_at: u128, first: u128, second: u128, ttl_nanos: u128)
    requires
        stored_at <= first <= second,
        spec_fresh(stored_at, second, ttl_nanos),
    ensures
        spec_fresh(stored_at, first, ttl_nanos),
{
}

} // verus!

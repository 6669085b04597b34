//! The room registry: the single owner of all rooms and their sessions.
//!
//! Every operation takes the registry by exclusive reference, so two
//! operations never see each other's intermediate state: whoever shares a
//! registry between tasks puts it behind one lock, and the order in which
//! the lock is taken is the order in which the operations apply.

use crate::model::{
    attached, detached, fresh_room, reclaimable, reclaimable_ids, secured_room, swept,
    with_room, with_secured_room, RoomView,
};
use std::collections::HashMap;
use vstd::prelude::*;
use vstd::std_specs::hash::*;
use vstd::std_specs::iter::IteratorSpec;

verus! {

broadcast use vstd::std_specs::hash::group_hash_axioms;

/// One participant's connection: the identifier under which it is known in
/// its room, and the handle of the negotiated connection.
pub struct Session<C> {
    pub id: u128,
    pub connection: C,
}

/// A group of sessions with the time of its last activity and its credential.
pub struct Room<C> {
    last_activity: u64,
    participants: HashMap<u128, C>,
    password: String,
}

impl<C> View for Room<C> {
    type V = RoomView<C>;

    closed spec fn view(&self) -> RoomView<C> {
        RoomView {
            last_activity: self.last_activity,
            participants: self.participants@,
            password: self.password@,
        }
    }
}

impl<C> Room<C> {
    /// An empty room without a credential, active at `now`.
    pub fn new(now: u64) -> (room: Self)
        ensures
            room@ == fresh_room::<C>(now),
    {
        Room { last_activity: now, participants: HashMap::new(), password: String::new() }
    }

    /// An empty room with the credential `password`, active at `now`.
    pub fn with_password(password: String, now: u64) -> (room: Self)
        ensures
            room@ == secured_room::<C>(password@, now),
    {
        Room { last_activity: now, participants: HashMap::new(), password }
    }

    /// The reading of the clock at the room's last activity.
    pub fn last_activity(&self) -> (t: u64)
        ensures
            t == self@.last_activity,
    {
        self.last_activity
    }

    /// How many sessions are in the room.
    pub fn participant_count(&self) -> (n: usize)
        ensures
            n == self@.participants.len(),
    {
        self.participants.len()
    }

    /// Whether session `session_id` is in the room.
    pub fn has_session(&self, session_id: u128) -> (b: bool)
        ensures
            b == self@.participants.contains_key(session_id),
    {
        self.participants.contains_key(&session_id)
    }

    /// The room's credential.
    pub fn password(&self) -> (p: &str)
        ensures
            p@ == self@.password,
    {
        self.password.as_str()
    }

    /// Whether the room is empty and has been idle for at least
    /// `idle_timeout` at `now`.
    pub fn is_reclaimable(&self, idle_timeout: u64, now: u64) -> (b: bool)
        ensures
            b == reclaimable(self@, idle_timeout, now),
    {
        let idle: u64 = if now >= self.last_activity {
            now - self.last_activity
        } else {
            0
        };
        self.participants.is_empty() && idle >= idle_timeout
    }
}

/// The error of an attach whose room is gone. It hands the session back, so
/// that the caller can create the room again and retry, or give up.
pub struct RoomNotFound<C> {
    pub room_id: u128,
    pub session: Session<C>,
}

/// All rooms, by identifier.
pub struct RoomRegistry<C> {
    rooms: HashMap<u128, Room<C>>,
}

impl<C> View for RoomRegistry<C> {
    type V = Map<u128, RoomView<C>>;

    closed spec fn view(&self) -> Map<u128, RoomView<C>> {
        Map::new(|id: u128| self.rooms@.contains_key(id), |id: u128| self.rooms@[id]@)
    }
}

impl<C> RoomRegistry<C> {
    /// A registry without rooms.
    pub fn new() -> (registry: Self)
        ensures
            registry@ == Map::<u128, RoomView<C>>::empty(),
    {
        let registry = RoomRegistry { rooms: HashMap::new() };
        assert(registry@ =~= Map::<u128, RoomView<C>>::empty());
        registry
    }

    /// How many rooms there are.
    pub fn room_count(&self) -> (n: usize)
        ensures
            n == self@.dom().len(),
    {
        assert(self@.dom() =~= self.rooms@.dom());
        self.rooms.len()
    }

    /// Whether room `room_id` exists.
    pub fn contains_room(&self, room_id: u128) -> (b: bool)
        ensures
            b == self@.contains_key(room_id),
    {
        self.rooms.contains_key(&room_id)
    }

    /// Room `room_id`, where it exists.
    pub fn room(&self, room_id: u128) -> (room: Option<&Room<C>>)
        ensures
            room is Some <==> self@.contains_key(room_id),
            room is Some ==> room->0@ == self@[room_id],
    {
        self.rooms.get(&room_id)
    }

    /// Returns room `room_id`, creating it empty and active at `now` where it
    /// does not exist yet. An existing room is left as it is, so asking twice
    /// creates one room.
    pub fn get_or_create(&mut self, room_id: u128, now: u64) -> (room: &Room<C>)
        ensures
            final(self)@ == with_room(old(self)@, room_id, now),
            final(self)@.contains_key(room_id),
            room@ == final(self)@[room_id],
    {
        if !self.rooms.contains_key(&room_id) {
            self.rooms.insert(room_id, Room::new(now));
        }
        assert(self@ =~= with_room(old(self)@, room_id, now));
        let found = self.rooms.get(&room_id);
        found.unwrap()
    }

    /// Creates room `room_id` empty, active at `now`, with the credential
    /// `password`, and tells whether it did: a room that exists is left as it
    /// is, with the credential it has.
    pub fn create_room(&mut self, room_id: u128, password: String, now: u64) -> (created: bool)
        ensures
            created == !old(self)@.contains_key(room_id),
            final(self)@ == with_secured_room(old(self)@, room_id, password@, now),
    {
        if self.rooms.contains_key(&room_id) {
            false
        } else {
            self.rooms.insert(room_id, Room::with_password(password, now));
            assert(self@ =~= with_secured_room(old(self)@, room_id, password@, now));
            true
        }
    }

    /// Puts `session` into room `room_id` under its identifier and marks the
    /// room active at `now`: the time of its last activity becomes `now`,
    /// unless it is later than `now` already, for it never goes back. A
    /// session already known under that identifier is replaced. Fails,
    /// changing nothing and handing the session back, exactly when the room
    /// does not exist.
    pub fn attach_session(&mut self, room_id: u128, session: Session<C>, now: u64) -> (r: Result<
        (),
        RoomNotFound<C>,
    >)
        ensures
            r is Ok <==> old(self)@.contains_key(room_id),
            final(self)@ == attached(
                old(self)@,
                room_id,
                session.id,
                session.connection,
                now,
            ),
            r is Err ==> r->Err_0.room_id == room_id && r->Err_0.session == session,
    {
        match self.rooms.remove(&room_id) {
            Some(room) => {
                let mut room = room;
                if now > room.last_activity {
                    room.last_activity = now;
                }
                room.participants.insert(session.id, session.connection);
                self.rooms.insert(room_id, room);
                assert(self@ =~= attached(
                    old(self)@,
                    room_id,
                    session.id,
                    session.connection,
                    now,
                ));
                Ok(())
            },
            None => {
                assert(self@ =~= old(self)@);
                Err(RoomNotFound { room_id, session })
            },
        }
    }

    /// Takes session `session_id` out of room `room_id` and marks the room
    /// active at `now`, as an attach does. Where the room or the session is
    /// absent nothing changes: detaching twice is detaching once.
    pub fn detach_session(&mut self, room_id: u128, session_id: u128, now: u64)
        ensures
            final(self)@ == detached(old(self)@, room_id, session_id, now),
    {
        match self.rooms.remove(&room_id) {
            Some(room) => {
                let mut room = room;
                let ghost before = room@;
                let left = room.participants.remove(&session_id);
                if left.is_some() && now > room.last_activity {
                    room.last_activity = now;
                }
                assert(left is None ==> room@.participants =~= before.participants);
                self.rooms.insert(room_id, room);
                assert(self@ =~= detached(old(self)@, room_id, session_id, now));
            },
            None => {
                assert(self@ =~= old(self)@);
            },
        }
    }

    /// The identifiers of all rooms, each once, in no particular order.
    pub fn room_ids(&self) -> (ids: Vec<u128>)
        ensures
            ids@.no_duplicates(),
            ids@.to_set() == self@.dom(),
    {
        let mut ids: Vec<u128> = Vec::new();
        let keys = self.rooms.keys();
        for id in it: keys
            invariant
                it.seq() == spec_keys_iter(&self.rooms).remaining(),
                ids@ == it.seq().unref().take(it.index()),
        {
            ids.push(*id);
            assert(ids@ =~= it.seq().unref().take(it.index() + 1));
        }
        assert(ids@ =~= spec_keys_iter(&self.rooms).remaining().unref());
        assert(self@.dom() =~= self.rooms@.dom());
        ids
    }

    /// One pass over all rooms at `now`: removes every room that is empty and
    /// has been idle for at least `idle_timeout`, leaves every other room as
    /// it is, and returns how many rooms it removed. The pass holds the
    /// registry exclusively from its first look to its last removal, so no
    /// session can join a room between the look and the removal.
    pub fn sweep_idle(&mut self, idle_timeout: u64, now: u64) -> (removed: usize)
        ensures
            final(self)@ == swept(old(self)@, idle_timeout, now),
            removed == reclaimable_ids(old(self)@, idle_timeout, now).len(),
            removed == old(self)@.dom().len() - final(self)@.dom().len(),
    {
        let ids = self.room_ids();
        let ghost before = self@;
        let ghost doomed = reclaimable_ids(before, idle_timeout, now);
        let ghost done: Set<u128> = Set::empty();
        let mut removed: usize = 0;
        let mut i: usize = 0;
        while i < ids.len()
            invariant
                i <= ids.len(),
                ids@.no_duplicates(),
                ids@.to_set() == before.dom(),
                before == old(self)@,
                doomed == reclaimable_ids(before, idle_timeout, now),
                done.finite(),
                forall|id: u128|
                    done.contains(id) <==> doomed.contains(id) && exists|j: int|
                        0 <= j < i && ids@[j] == id,
                removed == done.len(),
                removed <= i,
                self@ =~= before.remove_keys(done),
            decreases ids.len() - i,
        {
            let id = ids[i];
            assert(ids@.to_set().contains(id));
            assert(!done.contains(id));
            assert(self@.contains_key(id) && self@[id] == before[id]);
            let ghost rooms_before = self.rooms@;
            let ghost mid = self@;
            let reclaim = match self.rooms.get(&id) {
                Some(room) => room.is_reclaimable(idle_timeout, now),
                None => false,
            };
            if reclaim {
                self.rooms.remove(&id);
                removed = removed + 1;
                proof {
                    done = done.insert(id);
                    assert(self.rooms@ == rooms_before.remove(id));
                    assert forall|k: u128| self@.contains_key(k) implies mid.contains_key(k)
                        && self@[k] == mid[k] by {
                        assert(rooms_before.contains_key(k));
                    }
                    assert(self@ =~= mid.remove(id));
                }
            }
            i = i + 1;
            assert(ids@[i - 1] == id);
        }
        proof {
            assert forall|id: u128| doomed.contains(id) implies done.contains(id) by {
                assert(ids@.to_set().contains(id));
            }
            assert(done =~= doomed);
            assert(self@.dom() =~= before.dom().difference(doomed));
            assert(before.dom().intersect(doomed) =~= doomed);
            vstd::set_lib::lemma_set_difference_len(before.dom(), doomed);
        }
        removed
    }
}

} // verus!

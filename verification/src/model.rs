//! The mathematical model of the room registry.
//!
//! A registry is a map from room identifiers to rooms; a room is its
//! participants, the time of its last activity and its credential. Every
//! operation of the registry is one function from such a map to such a map.

use vstd::prelude::*;

verus! {

/// What a room is: its participants by session identifier, the reading of the
/// clock at its last activity, and its credential.
pub struct RoomView<C> {
    pub last_activity: u64,
    pub participants: Map<u128, C>,
    pub password: Seq<char>,
}

/// The later of two clock readings.
pub open spec fn later(a: u64, b: u64) -> u64 {
    if a >= b {
        a
    } else {
        b
    }
}

/// The time that passed between `last` and `now`; zero where the clock
/// reading `now` lies before `last`.
pub open spec fn elapsed(now: u64, last: u64) -> int {
    if now >= last {
        now - last
    } else {
        0
    }
}

/// A room as it is created: nobody in it, no credential, active at `now`.
pub open spec fn fresh_room<C>(now: u64) -> RoomView<C> {
    RoomView { last_activity: now, participants: Map::empty(), password: Seq::empty() }
}

/// A room as it is created on request: nobody in it, active at `now`, with
/// the credential `password`.
pub open spec fn secured_room<C>(password: Seq<char>, now: u64) -> RoomView<C> {
    RoomView { last_activity: now, participants: Map::empty(), password }
}

/// A room may be reclaimed when it is empty and has been idle for at least
/// `idle_timeout`.
pub open spec fn reclaimable<C>(room: RoomView<C>, idle_timeout: u64, now: u64) -> bool {
    room.participants.dom() =~= Set::<u128>::empty() && elapsed(now, room.last_activity)
        >= idle_timeout
}

/// The identifiers of the rooms of `m` that may be reclaimed at `now`.
pub open spec fn reclaimable_ids<C>(
    m: Map<u128, RoomView<C>>,
    idle_timeout: u64,
    now: u64,
) -> Set<u128> {
    Set::new(|id: u128| m.contains_key(id) && reclaimable(m[id], idle_timeout, now))
}

/// The participants of room `id`: nobody, where there is no such room.
pub open spec fn participants_of<C>(m: Map<u128, RoomView<C>>, id: u128) -> Map<u128, C> {
    if m.contains_key(id) {
        m[id].participants
    } else {
        Map::empty()
    }
}

/// The registry after room `id` was asked for at `now`: unchanged where the
/// room exists, with a fresh room under `id` where it does not.
pub open spec fn with_room<C>(m: Map<u128, RoomView<C>>, id: u128, now: u64) -> Map<
    u128,
    RoomView<C>,
> {
    if m.contains_key(id) {
        m
    } else {
        m.insert(id, fresh_room(now))
    }
}

/// The registry after room `id` was to be created at `now` with the
/// credential `password`: unchanged where the room exists.
pub open spec fn with_secured_room<C>(
    m: Map<u128, RoomView<C>>,
    id: u128,
    password: Seq<char>,
    now: u64,
) -> Map<u128, RoomView<C>> {
    if m.contains_key(id) {
        m
    } else {
        m.insert(id, secured_room(password, now))
    }
}

/// The registry after `connection` joined room `id` as `session_id` at `now`.
/// Where there is no such room nothing changes.
pub open spec fn attached<C>(
    m: Map<u128, RoomView<C>>,
    id: u128,
    session_id: u128,
    connection: C,
    now: u64,
) -> Map<u128, RoomView<C>> {
    if m.contains_key(id) {
        m.insert(
            id,
            RoomView {
                last_activity: later(m[id].last_activity, now),
                participants: m[id].participants.insert(session_id, connection),
                password: m[id].password,
            },
        )
    } else {
        m
    }
}

/// The registry after session `session_id` left room `id` at `now`. Where the
/// room or the session is absent nothing changes.
pub open spec fn detached<C>(
    m: Map<u128, RoomView<C>>,
    id: u128,
    session_id: u128,
    now: u64,
) -> Map<u128, RoomView<C>> {
    if m.contains_key(id) && m[id].participants.contains_key(session_id) {
        m.insert(
            id,
            RoomView {
                last_activity: later(m[id].last_activity, now),
                participants: m[id].participants.remove(session_id),
                password: m[id].password,
            },
        )
    } else {
        m
    }
}

/// The registry after one sweep at `now`: every room that may be reclaimed is
/// gone, every other room is as it was.
pub open spec fn swept<C>(m: Map<u128, RoomView<C>>, idle_timeout: u64, now: u64) -> Map<
    u128,
    RoomView<C>,
> {
    m.remove_keys(reclaimable_ids(m, idle_timeout, now))
}

} // verus!

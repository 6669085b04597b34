//! What holds of the registry's operations, proved over the model.

use crate::model::{
    attached, detached, fresh_room, participants_of, swept, with_room, with_secured_room,
    RoomView,
};
use vstd::prelude::*;

verus! {

/// One operation on the registry, as it is applied under the registry's lock.
pub enum RegistryOp<C> {
    GetOrCreate { room_id: u128, now: u64 },
    Create { room_id: u128, password: Seq<char>, now: u64 },
    Attach { room_id: u128, session_id: u128, connection: C, now: u64 },
    Detach { room_id: u128, session_id: u128, now: u64 },
    Sweep { idle_timeout: u64, now: u64 },
}

/// The registry after one operation.
pub open spec fn applied<C>(m: Map<u128, RoomView<C>>, op: RegistryOp<C>) -> Map<
    u128,
    RoomView<C>,
> {
    match op {
        RegistryOp::GetOrCreate { room_id, now } => with_room(m, room_id, now),
        RegistryOp::Create { room_id, password, now } => with_secured_room(
            m,
            room_id,
            password,
            now,
        ),
        RegistryOp::Attach { room_id, session_id, connection, now } => attached(
            m,
            room_id,
            session_id,
            connection,
            now,
        ),
        RegistryOp::Detach { room_id, session_id, now } => detached(m, room_id, session_id, now),
        RegistryOp::Sweep { idle_timeout, now } => swept(m, idle_timeout, now),
    }
}

/// The registry after the operations `ops`, applied first to last.
pub open spec fn applied_all<C>(m: Map<u128, RoomView<C>>, ops: Seq<RegistryOp<C>>) -> Map<
    u128,
    RoomView<C>,
>
    decreases ops.len(),
{
    if ops.len() == 0 {
        m
    } else {
        applied(applied_all(m, ops.drop_last()), ops.last())
    }
}

/// Whether session `session_id` is in room `room_id`.
pub open spec fn is_member<C>(m: Map<u128, RoomView<C>>, room_id: u128, session_id: u128) -> bool {
    participants_of(m, room_id).contains_key(session_id)
}

/// Operations that are applied one after the other lose no update: the
/// registry after two runs of operations is the registry that the second run
/// gives on the result of the first.
pub proof fn lemma_serial_order<C>(
    m: Map<u128, RoomView<C>>,
    first: Seq<RegistryOp<C>>,
    second: Seq<RegistryOp<C>>,
)
    ensures
        applied_all(m, first + second) == applied_all(applied_all(m, first), second),
    decreases second.len(),
{
    if second.len() == 0 {
        assert(first + second =~= first);
    } else {
        lemma_serial_order(m, first, second.drop_last());
        assert((first + second).drop_last() =~= first + second.drop_last());
        assert((first + second).last() == second.last());
    }
}

/// One operation changes the membership of one session at most: after it a
/// session is in a room exactly if it was attached to that existing room by
/// the operation, or was in it before and was not detached by the operation.
pub proof fn lemma_membership_after<C>(
    m: Map<u128, RoomView<C>>,
    op: RegistryOp<C>,
    room_id: u128,
    session_id: u128,
)
    ensures
        is_member(applied(m, op), room_id, session_id) <==> match op {
            RegistryOp::Attach { room_id: r, session_id: s, .. } => (r == room_id && s
                == session_id && m.contains_key(r)) || is_member(m, room_id, session_id),
            RegistryOp::Detach { room_id: r, session_id: s, .. } => !(r == room_id && s
                == session_id) && is_member(m, room_id, session_id),
            _ => is_member(m, room_id, session_id),
        },
{
}

/// Whether `op` attaches or detaches session `session_id` of room `room_id`.
pub open spec fn touches<C>(op: RegistryOp<C>, room_id: u128, session_id: u128) -> bool {
    match op {
        RegistryOp::Attach { room_id: r, session_id: s, .. } => r == room_id && s == session_id,
        RegistryOp::Detach { room_id: r, session_id: s, .. } => r == room_id && s == session_id,
        _ => false,
    }
}

/// No update is lost to the operations of others: after any run of operations
/// of which none attaches or detaches a given session, sweeps included, that
/// session is in its room exactly if it was before.
pub proof fn lemma_membership_survives_other_operations<C>(
    m: Map<u128, RoomView<C>>,
    ops: Seq<RegistryOp<C>>,
    room_id: u128,
    session_id: u128,
)
    requires
        forall|i: int| 0 <= i < ops.len() ==> !touches(#[trigger] ops[i], room_id, session_id),
    ensures
        is_member(applied_all(m, ops), room_id, session_id) == is_member(m, room_id, session_id),
    decreases ops.len(),
{
    if ops.len() > 0 {
        lemma_membership_survives_other_operations(m, ops.drop_last(), room_id, session_id);
        lemma_membership_after(applied_all(m, ops.drop_last()), ops.last(), room_id, session_id);
    }
}

/// The last operation on a session decides: after a run of operations that
/// ends with the detach of a session, the session is not in its room; after
/// one that ends with its attach to a room that exists by then, it is.
pub proof fn lemma_last_operation_decides<C>(
    m: Map<u128, RoomView<C>>,
    ops: Seq<RegistryOp<C>>,
    room_id: u128,
    session_id: u128,
)
    requires
        ops.len() > 0,
        touches(ops.last(), room_id, session_id),
    ensures
        is_member(applied_all(m, ops), room_id, session_id) <==> ops.last() is Attach && (
        applied_all(m, ops.drop_last()).contains_key(room_id)),
{
    lemma_membership_after(applied_all(m, ops.drop_last()), ops.last(), room_id, session_id);
}

/// A sweep never removes a room that has a participant: such a room is after
/// the sweep what it was before, and the participants of every room, removed
/// or not, are the same before and after.
pub proof fn lemma_sweep_spares_occupied_rooms<C>(
    m: Map<u128, RoomView<C>>,
    idle_timeout: u64,
    now: u64,
    room_id: u128,
)
    ensures
        participants_of(swept(m, idle_timeout, now), room_id) =~= participants_of(m, room_id),
        m.contains_key(room_id) && !(m[room_id].participants.dom() =~= Set::<u128>::empty())
            ==> swept(m, idle_timeout, now).contains_key(room_id) && swept(
            m,
            idle_timeout,
            now,
        )[room_id] == m[room_id],
{
}

/// A sweep removes what is empty and idle: an empty room whose last activity
/// lies at least `idle_timeout` before `now` is gone after the sweep at `now`.
pub proof fn lemma_sweep_removes_idle_rooms<C>(
    m: Map<u128, RoomView<C>>,
    idle_timeout: u64,
    now: u64,
    room_id: u128,
)
    requires
        m.contains_key(room_id),
        m[room_id].participants.dom() =~= Set::<u128>::empty(),
        now - m[room_id].last_activity >= idle_timeout,
    ensures
        !swept(m, idle_timeout, now).contains_key(room_id),
{
}

/// Detaching from a room that does not exist, or a session that is not in the
/// room, changes nothing.
pub proof fn lemma_detach_absent_changes_nothing<C>(
    m: Map<u128, RoomView<C>>,
    room_id: u128,
    session_id: u128,
    now: u64,
)
    requires
        !m.contains_key(room_id) || !m[room_id].participants.contains_key(session_id),
    ensures
        detached(m, room_id, session_id, now) == m,
{
}

/// Detaching a second time changes nothing, whenever the second call comes.
pub proof fn lemma_detach_twice_is_once<C>(
    m: Map<u128, RoomView<C>>,
    room_id: u128,
    session_id: u128,
    first: u64,
    second: u64,
)
    ensures
        detached(detached(m, room_id, session_id, first), room_id, session_id, second)
            == detached(m, room_id, session_id, first),
{
}

/// Asking twice for a room that did not exist creates it once: the second
/// request, whenever it comes, finds the room of the first and changes
/// nothing, and the registry has grown by that one room.
pub proof fn lemma_get_or_create_twice_is_once<C>(
    m: Map<u128, RoomView<C>>,
    room_id: u128,
    first: u64,
    second: u64,
)
    requires
        !m.contains_key(room_id),
    ensures
        with_room(with_room(m, room_id, first), room_id, second) == with_room(m, room_id, first),
        with_room(m, room_id, first).dom() == m.dom().insert(room_id),
        with_room(m, room_id, first)[room_id] == fresh_room::<C>(first),
{
}

/// The time of a room's last activity never goes back: in a room that an
/// operation leaves in the registry, it is after the operation at least what
/// it was before.
pub proof fn lemma_last_activity_never_decreases<C>(
    m: Map<u128, RoomView<C>>,
    op: RegistryOp<C>,
    room_id: u128,
)
    requires
        m.contains_key(room_id),
        applied(m, op).contains_key(room_id),
    ensures
        applied(m, op)[room_id].last_activity >= m[room_id].last_activity,
{
}

/// A request for a room, an attach and a detach touch one room: every other
/// room is left as it is.
pub proof fn lemma_other_rooms_untouched<C>(
    m: Map<u128, RoomView<C>>,
    op: RegistryOp<C>,
    room_id: u128,
)
    requires
        match op {
            RegistryOp::GetOrCreate { room_id: r, .. } => r != room_id,
            RegistryOp::Create { room_id: r, .. } => r != room_id,
            RegistryOp::Attach { room_id: r, .. } => r != room_id,
            RegistryOp::Detach { room_id: r, .. } => r != room_id,
            RegistryOp::Sweep { .. } => false,
        },
    ensures
        applied(m, op).contains_key(room_id) == m.contains_key(room_id),
        m.contains_key(room_id) ==> applied(m, op)[room_id] == m[room_id],
{
}

} // verus!

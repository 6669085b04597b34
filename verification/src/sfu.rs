//! The manager: the one owner of the registry, the engine and its settings.

use crate::config::{is_default_config, EngineConfig};
use crate::engine::{default_api, share};
use crate::model::{attached, detached, reclaimable_ids, swept, with_room, RoomView};
use crate::negotiation::{
    next_step, step, EngineEvent, EngineRequest, NegotiationError, OfferState,
};
use crate::rooms::{RoomRegistry, Session};
use std::sync::Arc;
use vstd::prelude::*;
use webrtc::api::API;

verus! {

/// The bits that tell the version and the variant of a UUID.
pub const UUID_KIND_MASK: u128 = 0xF000_C000_0000_0000_0000u128;

/// The version and variant bits of a random UUID: version 4, variant 1.
pub const UUID_RANDOM_KIND: u128 = 0x4000_8000_0000_0000_0000u128;

/// The manager of a relay: the rooms, the engine that negotiates connections
/// and the settings that the engine is given. `C` is the handle of a
/// negotiated connection.
pub struct SFU<C> {
    rooms: RoomRegistry<C>,
    api: Arc<API>,
    config: EngineConfig,
}

/// Draws the identifier of a new session with `Uuid::new_v4` of the crate
/// uuid and returns its value as an integer (`Uuid::as_u128`). The value is
/// random; the contract claims what holds of every version 4 UUID: the four
/// version bits are 4 and the two variant bits are binary 10.
#[verifier::external_body]
fn random_session_id() -> (id: u128)
    ensures
        id & UUID_KIND_MASK == UUID_RANDOM_KIND,
{
    uuid::Uuid::new_v4().as_u128()
}

impl<C> SFU<C> {
    /// A manager without rooms, with an engine built from its default parts
    /// and with the default reachability server. Fails where the engine
    /// cannot be built, and then with the error of construction.
    pub fn default() -> (r: Result<Self, NegotiationError>)
        ensures
            r is Ok ==> r->Ok_0.rooms_view() == Map::<u128, RoomView<C>>::empty()
                && is_default_config(r->Ok_0.settings()),
            r is Err ==> r->Err_0 == NegotiationError::EngineConstruction,
    {
        match default_api() {
            Ok(api) => Ok(
                SFU {
                    rooms: RoomRegistry::new(),
                    api: Arc::new(api),
                    config: EngineConfig::with_default_server(),
                },
            ),
            Err(e) => Err(e),
        }
    }

    /// A manager without rooms around the engine `api` with the settings
    /// `config`. It never fails.
    pub fn new(api: API, config: EngineConfig) -> (r: Result<Self, NegotiationError>)
        ensures
            r is Ok,
            r->Ok_0.rooms_view() == Map::<u128, RoomView<C>>::empty(),
            r->Ok_0.engine() == api,
            r->Ok_0.settings() == config,
    {
        Ok(SFU { rooms: RoomRegistry::new(), api: Arc::new(api), config })
    }

    /// The rooms of the manager, as the model sees them.
    pub closed spec fn rooms_view(self) -> Map<u128, RoomView<C>> {
        self.rooms@
    }

    /// The engine of the manager.
    pub closed spec fn engine(self) -> API {
        *self.api
    }

    /// The settings of the manager.
    pub closed spec fn settings(self) -> EngineConfig {
        self.config
    }

    /// The engine that negotiates connections, as a handle of its own: calls
    /// into the engine need no borrow of the manager.
    pub fn api(&self) -> (api: Arc<API>)
        ensures
            *api == self.engine(),
    {
        share(&self.api)
    }

    /// The settings that the engine is given with each request for a
    /// connection.
    pub fn config(&self) -> (config: &EngineConfig)
        ensures
            *config == self.settings(),
    {
        &self.config
    }

    /// The registry of the manager.
    pub fn rooms(&self) -> (rooms: &RoomRegistry<C>)
        ensures
            rooms@ == self.rooms_view(),
    {
        &self.rooms
    }

    /// One turn of the reclamation, after its sleep: removes at `now` every
    /// room that is empty and has been idle for at least `idle_timeout`, and
    /// returns how many it removed. Engine and settings stay as they are.
    pub fn clean_empty_rooms(&mut self, idle_timeout: u64, now: u64) -> (removed: usize)
        ensures
            final(self).rooms_view() == swept(old(self).rooms_view(), idle_timeout, now),
            removed == reclaimable_ids(old(self).rooms_view(), idle_timeout, now).len(),
            final(self).engine() == old(self).engine(),
            final(self).settings() == old(self).settings(),
    {
        self.rooms.sweep_idle(idle_timeout, now)
    }

    /// One decision of a negotiation: takes the outcome of the request that
    /// `state` awaits and says what the negotiation does next. The rooms are
    /// not touched before the request is `Attach`.
    pub fn handle_offer(&self, state: OfferState, event: EngineEvent) -> (r: (
        OfferState,
        EngineRequest,
    ))
        ensures
            r == next_step(state, event),
    {
        step(state, event)
    }

    /// Attaches `session` to room `room_id` at `now`, creating the room where
    /// it does not exist: the last step of a negotiation that succeeded.
    pub fn join_session(&mut self, room_id: u128, session: Session<C>, now: u64)
        ensures
            final(self).rooms_view() == attached(
                with_room(old(self).rooms_view(), room_id, now),
                room_id,
                session.id,
                session.connection,
                now,
            ),
            final(self).engine() == old(self).engine(),
            final(self).settings() == old(self).settings(),
    {
        self.rooms.get_or_create(room_id, now);
        let attached = self.rooms.attach_session(room_id, session, now);
        assert(attached is Ok);
    }

    /// Attaches the connection `connection` to room `room_id` at `now` as a
    /// new session under a random identifier, which it returns. The room is
    /// created where it does not exist.
    pub fn join(&mut self, room_id: u128, connection: C, now: u64) -> (session_id: u128)
        ensures
            final(self).rooms_view() == attached(
                with_room(old(self).rooms_view(), room_id, now),
                room_id,
                session_id,
                connection,
                now,
            ),
            session_id & UUID_KIND_MASK == UUID_RANDOM_KIND,
            final(self).engine() == old(self).engine(),
            final(self).settings() == old(self).settings(),
    {
        let session_id = random_session_id();
        self.join_session(room_id, Session { id: session_id, connection }, now);
        session_id
    }

    /// Takes session `session_id` out of room `room_id` at `now`; changes
    /// nothing where the room or the session is absent.
    pub fn leave(&mut self, room_id: u128, session_id: u128, now: u64)
        ensures
            final(self).rooms_view() == detached(old(self).rooms_view(), room_id, session_id, now),
            final(self).engine() == old(self).engine(),
            final(self).settings() == old(self).settings(),
    {
        self.rooms.detach_session(room_id, session_id, now);
    }
}

} // verus!

use open_rooms::config::{
    idle_timeout_secs, timeout_or_default, EngineConfig, IceServer, DEFAULT_IDLE_TIMEOUT_SECS,
    DEFAULT_STUN_SERVER, POLL_INTERVAL_SECS,
};
use open_rooms::reclaim::{reclaim_begin, reclaim_step, ReclaimAction, ReclaimState};
use open_rooms::rooms::Session;
use open_rooms::sfu::{SFU, UUID_KIND_MASK, UUID_RANDOM_KIND};
use std::sync::Arc;
use uuid::Uuid;
use webrtc::api::APIBuilder;

const R1: u128 = 0x1111_1111_1111_4111_8111_1111_1111_1111;

#[test]
fn default_manager_has_no_rooms_and_the_default_server() {
    let manager: SFU<String> = SFU::default().ok().unwrap();
    assert_eq!(manager.rooms().room_count(), 0);
    let config = manager.config();
    assert_eq!(config.ice_servers.len(), 1);
    assert_eq!(config.ice_servers[0].urls, vec!["stun:stun.l.google.com:19302".to_string()]);
    assert_eq!(config.ice_servers[0].username, "");
    assert_eq!(config.ice_servers[0].credential, "");
    assert_eq!(DEFAULT_STUN_SERVER, "stun:stun.l.google.com:19302");
}

#[test]
fn default_manager_hands_out_its_one_engine() {
    let manager: SFU<String> = SFU::default().ok().unwrap();
    let first = manager.api();
    let second = manager.api();
    assert!(Arc::ptr_eq(&first, &second));
    assert!(Arc::ptr_eq(&first.media_engine(), &second.media_engine()));
    assert!(Arc::ptr_eq(&first.setting_engine(), &second.setting_engine()));
}

#[test]
fn new_manager_keeps_engine_and_settings() {
    let config = EngineConfig {
        ice_servers: vec![IceServer {
            urls: vec!["turn:relay.example:3478".to_string()],
            username: "u".to_string(),
            credential: "p".to_string(),
        }],
    };
    let api = APIBuilder::new().build();
    let media = api.media_engine();
    let manager: SFU<String> = SFU::new(api, config).ok().unwrap();
    assert!(Arc::ptr_eq(&media, &manager.api().media_engine()));
    assert_eq!(manager.rooms().room_count(), 0);
    assert_eq!(manager.config().ice_servers.len(), 1);
    assert_eq!(manager.config().ice_servers[0].urls[0], "turn:relay.example:3478");
    assert_eq!(manager.config().ice_servers[0].username, "u");
    assert_eq!(manager.config().ice_servers[0].credential, "p");
}

#[test]
fn join_creates_the_room_and_draws_a_random_identifier() {
    let mut manager: SFU<String> = SFU::default().ok().unwrap();
    let a = manager.join(R1, "a".to_string(), 3);
    let b = manager.join(R1, "b".to_string(), 4);
    assert_ne!(a, b);
    assert_eq!(a & UUID_KIND_MASK, UUID_RANDOM_KIND);
    assert_eq!(Uuid::from_u128(a).get_version_num(), 4);
    assert_eq!(Uuid::from_u128(b).get_version_num(), 4);
    let room = manager.rooms().room(R1).unwrap();
    assert_eq!(room.participant_count(), 2);
    assert!(room.has_session(a));
    assert!(room.has_session(b));
    assert_eq!(room.last_activity(), 4);
}

#[test]
fn join_session_uses_the_given_identifier() {
    let mut manager: SFU<String> = SFU::default().ok().unwrap();
    let id = Uuid::from_u128(0xa1a2a3a4_b1b2_41c2_91d2_d3d4d5d6d7d8).as_u128();
    manager.join_session(R1, Session { id, connection: "a".to_string() }, 10);
    assert!(manager.rooms().room(R1).unwrap().has_session(0xa1a2a3a4_b1b2_41c2_91d2_d3d4d5d6d7d8));
    assert_eq!(manager.rooms().room(R1).unwrap().last_activity(), 10);
}

#[test]
fn leave_is_harmless_where_nothing_is_found() {
    let mut manager: SFU<String> = SFU::default().ok().unwrap();
    manager.leave(R1, 5, 1);
    assert_eq!(manager.rooms().room_count(), 0);
    let id = manager.join(R1, "a".to_string(), 2);
    manager.leave(R1, id ^ 1, 3);
    assert_eq!(manager.rooms().room(R1).unwrap().participant_count(), 1);
    manager.leave(R1, id, 4);
    assert_eq!(manager.rooms().room(R1).unwrap().participant_count(), 0);
    assert_eq!(manager.rooms().room(R1).unwrap().last_activity(), 4);
}

#[test]
fn clean_empty_rooms_follows_the_polls() {
    let mut manager: SFU<String> = SFU::default().ok().unwrap();
    let id = manager.join(R1, "a".to_string(), 0);
    manager.leave(R1, id, 0);
    let (mut state, mut action) = reclaim_begin();
    let mut now: u64 = 0;
    let mut removed_at = None;
    let mut turns = 0;
    while turns < 6 {
        match action {
            ReclaimAction::Sleep(seconds) => now += seconds,
            ReclaimAction::Sweep => {
                if manager.clean_empty_rooms(DEFAULT_IDLE_TIMEOUT_SECS, now) == 1 {
                    removed_at = Some(now);
                }
            }
        }
        let next = reclaim_step(state);
        state = next.0;
        action = next.1;
        turns += 1;
    }
    assert_eq!(removed_at, Some(120));
    assert_eq!(now, 180);
    assert!(!manager.rooms().contains_room(R1));
}

#[test]
fn reclamation_sleeps_and_sweeps_in_turn() {
    assert_eq!(POLL_INTERVAL_SECS, 60);
    assert_eq!(reclaim_begin(), (ReclaimState::Sleeping, ReclaimAction::Sleep(60)));
    assert_eq!(
        reclaim_step(ReclaimState::Sleeping),
        (ReclaimState::Sweeping, ReclaimAction::Sweep)
    );
    assert_eq!(
        reclaim_step(ReclaimState::Sweeping),
        (ReclaimState::Sleeping, ReclaimAction::Sleep(60))
    );
}

#[test]
fn idle_timeout_is_read_or_defaults() {
    assert_eq!(DEFAULT_IDLE_TIMEOUT_SECS, 120);
    assert_eq!(idle_timeout_secs(Some("300")), 300);
    assert_eq!(idle_timeout_secs(Some("0")), 0);
    assert_eq!(idle_timeout_secs(Some("18446744073709551615")), u64::MAX);
    assert_eq!(idle_timeout_secs(Some("18446744073709551616")), 120);
    assert_eq!(idle_timeout_secs(Some("two minutes")), 120);
    assert_eq!(idle_timeout_secs(Some("")), 120);
    assert_eq!(idle_timeout_secs(Some("-5")), 120);
    assert_eq!(idle_timeout_secs(Some(" 30")), 120);
    assert_eq!(idle_timeout_secs(None), 120);
}

#[test]
fn timeout_or_default_keeps_a_number() {
    assert_eq!(timeout_or_default(Some(45)), 45);
    assert_eq!(timeout_or_default(Some(0)), 0);
    assert_eq!(timeout_or_default(None), 120);
}

use open_rooms::rooms::{RoomRegistry, Room, Session};

const R1: u128 = 0x1111_1111_1111_4111_8111_1111_1111_1111;
const R2: u128 = 0x2222_2222_2222_4222_8222_2222_2222_2222;
const S1: u128 = 0xaaaa_aaaa_aaaa_4aaa_8aaa_aaaa_aaaa_aaaa;
const S2: u128 = 0xbbbb_bbbb_bbbb_4bbb_8bbb_bbbb_bbbb_bbbb;

fn session(id: u128, connection: &str) -> Session<String> {
    Session { id, connection: connection.to_string() }
}

#[test]
fn new_registry_has_no_rooms() {
    let registry: RoomRegistry<String> = RoomRegistry::new();
    assert_eq!(registry.room_count(), 0);
    assert!(!registry.contains_room(R1));
    assert!(registry.room(R1).is_none());
    assert!(registry.room_ids().is_empty());
}

#[test]
fn new_room_is_empty_and_active_at_creation() {
    let room: Room<String> = Room::new(42);
    assert_eq!(room.last_activity(), 42);
    assert_eq!(room.participant_count(), 0);
    assert_eq!(room.password(), "");
    assert!(!room.has_session(S1));
}

#[test]
fn get_or_create_creates_an_empty_room() {
    let mut registry: RoomRegistry<String> = RoomRegistry::new();
    let room = registry.get_or_create(R1, 7);
    assert_eq!(room.last_activity(), 7);
    assert_eq!(room.participant_count(), 0);
    assert!(registry.contains_room(R1));
    assert_eq!(registry.room_count(), 1);
    assert_eq!(registry.room_ids(), vec![R1]);
}

#[test]
fn get_or_create_twice_yields_one_room() {
    let mut registry: RoomRegistry<String> = RoomRegistry::new();
    registry.get_or_create(R1, 7);
    registry.attach_session(R1, session(S1, "a"), 8).ok().unwrap();
    let room = registry.get_or_create(R1, 99);
    assert_eq!(room.last_activity(), 8);
    assert_eq!(room.participant_count(), 1);
    assert!(room.has_session(S1));
    assert_eq!(registry.room_count(), 1);
}

#[test]
fn attach_session_joins_the_room_and_refreshes_it() {
    let mut registry: RoomRegistry<String> = RoomRegistry::new();
    registry.get_or_create(R1, 10);
    assert!(registry.attach_session(R1, session(S1, "a"), 25).is_ok());
    assert!(registry.attach_session(R1, session(S2, "b"), 30).is_ok());
    let room = registry.room(R1).unwrap();
    assert_eq!(room.participant_count(), 2);
    assert!(room.has_session(S1));
    assert!(room.has_session(S2));
    assert_eq!(room.last_activity(), 30);
}

#[test]
fn attach_session_under_a_known_identifier_replaces_it() {
    let mut registry: RoomRegistry<String> = RoomRegistry::new();
    registry.get_or_create(R1, 10);
    assert!(registry.attach_session(R1, session(S1, "a"), 11).is_ok());
    assert!(registry.attach_session(R1, session(S1, "b"), 12).is_ok());
    assert_eq!(registry.room(R1).unwrap().participant_count(), 1);
}

#[test]
fn attach_session_to_a_missing_room_fails_and_hands_the_session_back() {
    let mut registry: RoomRegistry<String> = RoomRegistry::new();
    registry.get_or_create(R2, 0);
    match registry.attach_session(R1, session(S1, "a"), 5) {
        Ok(()) => panic!("the room does not exist"),
        Err(e) => {
            assert_eq!(e.room_id, R1);
            assert_eq!(e.session.id, S1);
            assert_eq!(e.session.connection, "a");
        }
    }
    assert!(!registry.contains_room(R1));
    assert_eq!(registry.room_count(), 1);
    assert_eq!(registry.room(R2).unwrap().participant_count(), 0);
    assert_eq!(registry.room(R2).unwrap().last_activity(), 0);
}

#[test]
fn attach_after_reclamation_fails_until_the_room_is_created_again() {
    let mut registry: RoomRegistry<String> = RoomRegistry::new();
    registry.get_or_create(R1, 0);
    assert_eq!(registry.sweep_idle(10, 10), 1);
    let back = match registry.attach_session(R1, session(S1, "a"), 11) {
        Ok(()) => panic!("the room was reclaimed"),
        Err(e) => e.session,
    };
    registry.get_or_create(R1, 11);
    assert!(registry.attach_session(R1, back, 11).is_ok());
    assert!(registry.room(R1).unwrap().has_session(S1));
}

#[test]
fn detach_session_leaves_the_room_and_refreshes_it() {
    let mut registry: RoomRegistry<String> = RoomRegistry::new();
    registry.get_or_create(R1, 10);
    registry.attach_session(R1, session(S1, "a"), 20).ok().unwrap();
    registry.attach_session(R1, session(S2, "b"), 21).ok().unwrap();
    registry.detach_session(R1, S1, 40);
    let room = registry.room(R1).unwrap();
    assert!(!room.has_session(S1));
    assert!(room.has_session(S2));
    assert_eq!(room.participant_count(), 1);
    assert_eq!(room.last_activity(), 40);
}

#[test]
fn detach_session_from_a_missing_room_changes_nothing() {
    let mut registry: RoomRegistry<String> = RoomRegistry::new();
    registry.get_or_create(R2, 3);
    registry.detach_session(R1, S1, 50);
    assert!(!registry.contains_room(R1));
    assert_eq!(registry.room_count(), 1);
    assert_eq!(registry.room(R2).unwrap().last_activity(), 3);
}

#[test]
fn detach_session_of_a_missing_session_changes_nothing() {
    let mut registry: RoomRegistry<String> = RoomRegistry::new();
    registry.get_or_create(R1, 3);
    registry.attach_session(R1, session(S1, "a"), 4).ok().unwrap();
    registry.detach_session(R1, S2, 50);
    let room = registry.room(R1).unwrap();
    assert_eq!(room.participant_count(), 1);
    assert!(room.has_session(S1));
    assert_eq!(room.last_activity(), 4);
}

#[test]
fn detach_session_twice_is_detaching_once() {
    let mut registry: RoomRegistry<String> = RoomRegistry::new();
    registry.get_or_create(R1, 3);
    registry.attach_session(R1, session(S1, "a"), 4).ok().unwrap();
    registry.detach_session(R1, S1, 10);
    registry.detach_session(R1, S1, 20);
    let room = registry.room(R1).unwrap();
    assert_eq!(room.participant_count(), 0);
    assert_eq!(room.last_activity(), 10);
}

#[test]
fn last_activity_never_goes_back() {
    let mut registry: RoomRegistry<String> = RoomRegistry::new();
    registry.get_or_create(R1, 100);
    registry.attach_session(R1, session(S1, "a"), 90).ok().unwrap();
    assert_eq!(registry.room(R1).unwrap().last_activity(), 100);
    registry.detach_session(R1, S1, 95);
    assert_eq!(registry.room(R1).unwrap().last_activity(), 100);
    assert_eq!(registry.room(R1).unwrap().participant_count(), 0);
}

#[test]
fn sweep_idle_removes_empty_idle_rooms_only() {
    let mut registry: RoomRegistry<String> = RoomRegistry::new();
    registry.get_or_create(R1, 0);
    registry.get_or_create(R2, 0);
    registry.attach_session(R2, session(S1, "a"), 0).ok().unwrap();
    assert_eq!(registry.sweep_idle(120, 500), 1);
    assert!(!registry.contains_room(R1));
    assert!(registry.contains_room(R2));
    assert_eq!(registry.room(R2).unwrap().participant_count(), 1);
    assert_eq!(registry.room(R2).unwrap().last_activity(), 0);
    assert_eq!(registry.sweep_idle(120, 1000), 0);
    assert!(registry.contains_room(R2));
}

#[test]
fn sweep_idle_counts_every_removed_room() {
    let mut registry: RoomRegistry<String> = RoomRegistry::new();
    let mut id: u128 = 1;
    while id <= 5 {
        registry.get_or_create(id, id as u64 * 10);
        id += 1;
    }
    assert_eq!(registry.sweep_idle(100, 130), 3);
    assert_eq!(registry.room_count(), 2);
    assert!(!registry.contains_room(1));
    assert!(!registry.contains_room(2));
    assert!(!registry.contains_room(3));
    assert!(registry.contains_room(4));
    assert!(registry.contains_room(5));
}

#[test]
fn sweep_idle_keeps_a_room_just_below_the_timeout() {
    let mut registry: RoomRegistry<String> = RoomRegistry::new();
    registry.get_or_create(R1, 1000);
    assert_eq!(registry.sweep_idle(120, 1119), 0);
    assert!(registry.contains_room(R1));
    assert_eq!(registry.sweep_idle(120, 1120), 1);
    assert!(!registry.contains_room(R1));
}

#[test]
fn sweep_idle_with_a_clock_behind_the_room_sees_no_idle_time() {
    let mut registry: RoomRegistry<String> = RoomRegistry::new();
    registry.get_or_create(R1, 1000);
    assert_eq!(registry.sweep_idle(1, 10), 0);
    assert!(registry.contains_room(R1));
    assert_eq!(registry.sweep_idle(0, 10), 1);
    assert!(!registry.contains_room(R1));
}

#[test]
fn sweep_idle_spares_a_room_that_was_just_left() {
    let mut registry: RoomRegistry<String> = RoomRegistry::new();
    registry.get_or_create(R1, 0);
    registry.attach_session(R1, session(S1, "a"), 0).ok().unwrap();
    registry.detach_session(R1, S1, 200);
    assert_eq!(registry.sweep_idle(120, 240), 0);
    assert!(registry.contains_room(R1));
    assert_eq!(registry.sweep_idle(120, 320), 1);
    assert!(!registry.contains_room(R1));
}

#[test]
fn empty_room_is_gone_after_three_polls() {
    let idle_timeout: u64 = 120;
    let poll_interval: u64 = 60;
    let mut registry: RoomRegistry<String> = RoomRegistry::new();
    registry.get_or_create(R1, 0);
    assert_eq!(registry.sweep_idle(idle_timeout, poll_interval), 0);
    assert!(registry.contains_room(R1));
    registry.sweep_idle(idle_timeout, 2 * poll_interval);
    registry.sweep_idle(idle_timeout, 3 * poll_interval);
    assert!(!registry.contains_room(R1));
    assert_eq!(registry.room_count(), 0);
}

#[test]
fn operations_apply_in_the_order_of_the_calls() {
    let mut registry: RoomRegistry<String> = RoomRegistry::new();
    registry.get_or_create(R1, 0);
    registry.attach_session(R1, session(S1, "a"), 1).ok().unwrap();
    registry.sweep_idle(0, 2);
    registry.attach_session(R1, session(S2, "b"), 3).ok().unwrap();
    registry.detach_session(R1, S1, 4);
    registry.sweep_idle(0, 5);
    registry.attach_session(R1, session(S1, "c"), 6).ok().unwrap();
    registry.detach_session(R1, S2, 7);
    registry.sweep_idle(0, 8);
    let room = registry.room(R1).unwrap();
    assert_eq!(room.participant_count(), 1);
    assert!(room.has_session(S1));
    assert!(!room.has_session(S2));
    assert_eq!(room.last_activity(), 7);
    registry.detach_session(R1, S1, 9);
    assert_eq!(registry.sweep_idle(0, 9), 1);
    assert!(!registry.contains_room(R1));
}

#[test]
fn room_tells_when_it_may_be_reclaimed() {
    let mut registry: RoomRegistry<String> = RoomRegistry::new();
    registry.get_or_create(R1, 50);
    assert!(!registry.room(R1).unwrap().is_reclaimable(10, 59));
    assert!(registry.room(R1).unwrap().is_reclaimable(10, 60));
    registry.attach_session(R1, session(S1, "a"), 50).ok().unwrap();
    assert!(!registry.room(R1).unwrap().is_reclaimable(10, 6000));
}

#[test]
fn room_ids_lists_each_room_once() {
    let mut registry: RoomRegistry<String> = RoomRegistry::new();
    registry.get_or_create(R1, 0);
    registry.get_or_create(R2, 0);
    registry.get_or_create(R1, 1);
    let mut ids = registry.room_ids();
    ids.sort();
    assert_eq!(ids, vec![R1, R2]);
}

#[test]
fn create_room_stores_the_credential() {
    let mut registry: RoomRegistry<String> = RoomRegistry::new();
    assert!(registry.create_room(R1, "secret".to_string(), 15));
    let room = registry.room(R1).unwrap();
    assert_eq!(room.password(), "secret");
    assert_eq!(room.last_activity(), 15);
    assert_eq!(room.participant_count(), 0);
}

#[test]
fn create_room_leaves_an_existing_room_as_it_is() {
    let mut registry: RoomRegistry<String> = RoomRegistry::new();
    assert!(registry.create_room(R1, "first".to_string(), 15));
    registry.attach_session(R1, session(S1, "a"), 16).ok().unwrap();
    assert!(!registry.create_room(R1, "second".to_string(), 30));
    let room = registry.get_or_create(R1, 40);
    assert_eq!(room.password(), "first");
    assert_eq!(room.last_activity(), 16);
    assert!(room.has_session(S1));
    assert_eq!(registry.room_count(), 1);
}

#[test]
fn room_with_password_is_empty() {
    let room: Room<String> = Room::with_password("pw".to_string(), 9);
    assert_eq!(room.password(), "pw");
    assert_eq!(room.last_activity(), 9);
    assert_eq!(room.participant_count(), 0);
    assert!(room.is_reclaimable(0, 9));
}

use signaling::room::Room;

#[test]
fn new_room_has_no_peers() {
    let room = Room::new();
    assert!(room.get_peers(1).is_empty());
}

#[test]
fn peers_leave_out_the_caller() {
    let mut room = Room::new();
    room.add_user(1);
    room.add_user(2);
    room.add_user(3);
    assert_eq!(room.get_peers(2), vec![1, 3]);
    assert_eq!(room.get_peers(1), vec![2, 3]);
    assert_eq!(room.get_peers(9), vec![1, 2, 3]);
}

#[test]
fn duplicate_registration_is_kept() {
    let mut room = Room::new();
    room.add_user(1);
    room.add_user(2);
    room.add_user(2);
    assert_eq!(room.get_peers(1), vec![2, 2]);
}

#[test]
fn remove_drops_every_entry() {
    let mut room = Room::new();
    room.add_user(1);
    room.add_user(2);
    room.add_user(1);
    room.remove_user(1);
    assert_eq!(room.get_peers(2), Vec::<u64>::new());
    assert_eq!(room.get_peers(3), vec![2]);
}

#[test]
fn remove_of_absent_is_a_no_op() {
    let mut room = Room::new();
    room.add_user(1);
    room.remove_user(5);
    assert_eq!(room.get_peers(2), vec![1]);
}

#[test]
fn removed_session_stays_out_of_lookups() {
    let mut room = Room::new();
    room.add_user(1);
    room.add_user(2);
    room.add_user(3);
    room.remove_user(2);
    room.add_user(4);
    room.remove_user(3);
    for t in 0..6 {
        assert!(!room.get_peers(t).contains(&2));
    }
    room.add_user(2);
    assert!(room.get_peers(1).contains(&2));
}

#[test]
fn caller_never_among_its_peers() {
    let mut room = Room::new();
    for u in [1, 2, 1, 3, 2] {
        room.add_user(u);
    }
    room.remove_user(3);
    for s in 0..5 {
        assert!(!room.get_peers(s).contains(&s));
    }
}

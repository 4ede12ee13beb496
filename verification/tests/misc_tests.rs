use paging_core::clock::{generate_host_serial, initial_sample_count, rand_ssrc};
use paging_core::membership::{is_multicast_v4, GroupMembership, MulticastError};
use paging_core::wire::{read_be16, read_be32};

#[test]
fn test_generate_host_serial() {
    let serial1 = generate_host_serial();
    let serial2 = generate_host_serial();

    // The function must at least hand back four bytes each time; the
    // values themselves are clock-seeded.
    assert_eq!(serial1.len(), 4);
    assert_eq!(serial2.len(), 4);
}

#[test]
fn test_clock_seeded_identifiers_exist() {
    let _ = rand_ssrc();
    let _ = initial_sample_count();
}

#[test]
fn test_wire_fields() {
    assert_eq!(read_be16(0x12, 0x34), 0x1234);
    assert_eq!(read_be32(0x01, 0x02, 0x03, 0x04), 0x01020304);
}

#[test]
fn test_is_multicast_range() {
    assert!(is_multicast_v4([224, 0, 1, 116]));
    assert!(is_multicast_v4([239, 255, 255, 255]));
    assert!(!is_multicast_v4([192, 168, 1, 1]));
    assert!(!is_multicast_v4([240, 0, 0, 1]));
}

#[test]
fn test_membership_join_leave() {
    let mut membership = GroupMembership::new();
    let group = [224, 0, 1, 1];

    assert!(membership.join(group).is_ok());
    assert!(membership.is_member(group));
    assert!(matches!(
        membership.join(group),
        Err(MulticastError::AlreadyJoined(_))
    ));

    assert!(membership.leave(group).is_ok());
    assert!(!membership.is_member(group));
    assert!(matches!(
        membership.leave(group),
        Err(MulticastError::NotMember(_))
    ));
}

#[test]
fn test_membership_rejects_unicast() {
    let mut membership = GroupMembership::new();
    let result = membership.join([192, 168, 1, 1]);
    assert!(matches!(result, Err(MulticastError::NotMulticast(_))));
}

#[test]
fn test_membership_leave_all_idempotent() {
    let mut membership = GroupMembership::new();
    membership.join([224, 0, 1, 1]).unwrap();
    membership.join([224, 0, 1, 2]).unwrap();
    membership.leave_all();
    assert!(!membership.is_member([224, 0, 1, 1]));
    membership.leave_all();
}

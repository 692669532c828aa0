use rclrs::{
    MessageInfo, PublisherGid, RmwGid, RmwMessageInfo, Timestamp, RMW_GID_STORAGE_SIZE,
    SEQUENCE_NUMBER_UNSUPPORTED,
};

fn record(source_timestamp: i64, received_timestamp: i64) -> RmwMessageInfo<'static> {
    RmwMessageInfo {
        source_timestamp,
        received_timestamp,
        publication_sequence_number: 0,
        reception_sequence_number: 0,
        publisher_gid: RmwGid {
            data: [0; RMW_GID_STORAGE_SIZE],
            implementation_identifier: None,
        },
        from_intra_process: false,
    }
}

fn assert_send<T: Send>() {}

fn assert_sync<T: Sync>() {}

#[test]
fn negative_durations() {
    let rmw_message_info = RmwMessageInfo {
        source_timestamp: -1_000_000_000,
        received_timestamp: 1_000_000_000,
        publication_sequence_number: 0,
        reception_sequence_number: 0,
        publisher_gid: RmwGid {
            data: [0; RMW_GID_STORAGE_SIZE],
            implementation_identifier: None,
        },
        from_intra_process: false,
    };
    let message_info = MessageInfo::from_rmw_message_info(&rmw_message_info);
    assert_eq!(
        message_info
            .source_timestamp()
            .unwrap()
            .checked_add_nanos(2_000_000_000)
            .unwrap(),
        message_info.received_timestamp().unwrap()
    );
}

#[test]
fn traits() {
    assert_send::<MessageInfo>();
    assert_sync::<MessageInfo>();
    assert_send::<PublisherGid>();
    assert_sync::<PublisherGid>();
}

#[test]
fn zero_source_timestamp_is_absent() {
    let mut raw = record(0, 42);
    raw.publication_sequence_number = 9;
    raw.publisher_gid.data = [0xab; RMW_GID_STORAGE_SIZE];
    raw.publisher_gid.implementation_identifier = Some("rmw_fastrtps_cpp");
    raw.from_intra_process = true;
    let info = MessageInfo::from_rmw_message_info(&raw);
    assert_eq!(info.source_timestamp(), None);
    assert_eq!(info.received_timestamp().unwrap().nanos_since_epoch(), 42);
}

#[test]
fn zero_received_timestamp_is_absent() {
    let info = MessageInfo::from_rmw_message_info(&record(7, 0));
    assert_eq!(info.received_timestamp(), None);
    assert_eq!(info.source_timestamp().unwrap().nanos_since_epoch(), 7);
}

#[test]
fn positive_timestamp_is_after_epoch() {
    let t = Timestamp::from_rmw_time_point(1_500_000_123).unwrap();
    assert_eq!(t.nanos_since_epoch(), 1_500_000_123);
    assert_eq!(t.duration_since(&Timestamp::unix_epoch()), Some(1_500_000_123));
    let max = Timestamp::from_rmw_time_point(i64::MAX).unwrap();
    assert_eq!(max.nanos_since_epoch(), i64::MAX as i128);
}

#[test]
fn negative_timestamp_is_before_epoch() {
    let t = Timestamp::from_rmw_time_point(-250).unwrap();
    assert_eq!(t.nanos_since_epoch(), -250);
    assert_eq!(Timestamp::unix_epoch().duration_since(&t), Some(250));
    assert_eq!(t.duration_since(&Timestamp::unix_epoch()), None);
}

#[test]
fn minimum_timestamp_does_not_overflow() {
    let t = Timestamp::from_rmw_time_point(i64::MIN).unwrap();
    assert_eq!(t.nanos_since_epoch(), i64::MIN as i128);
    assert_eq!(
        Timestamp::unix_epoch().duration_since(&t),
        Some(9_223_372_036_854_775_808)
    );
    let info = MessageInfo::from_rmw_message_info(&record(i64::MIN, i64::MIN));
    assert_eq!(info.source_timestamp(), Some(t));
    assert_eq!(info.received_timestamp(), Some(t));
}

#[test]
fn symmetric_time_points_are_twice_apart() {
    let ts2: i64 = 123_456_789;
    let ts1: i64 = -ts2;
    let before = Timestamp::from_rmw_time_point(ts1).unwrap();
    let after = Timestamp::from_rmw_time_point(ts2).unwrap();
    assert_eq!(after.duration_since(&before), Some(246_913_578));
    let extreme = Timestamp::from_rmw_time_point(i64::MAX).unwrap();
    let mirrored = Timestamp::from_rmw_time_point(-i64::MAX).unwrap();
    assert_eq!(
        extreme.duration_since(&mirrored),
        Some(2 * (i64::MAX as u128))
    );
}

#[test]
fn sequence_numbers_and_gid_pass_through() {
    let mut data = [0u8; RMW_GID_STORAGE_SIZE];
    for (i, b) in data.iter_mut().enumerate() {
        *b = i as u8 * 3;
    }
    let raw = RmwMessageInfo {
        source_timestamp: 1,
        received_timestamp: 2,
        publication_sequence_number: 17,
        reception_sequence_number: u64::MAX - 1,
        publisher_gid: RmwGid {
            data,
            implementation_identifier: Some("rmw_cyclonedds_cpp"),
        },
        from_intra_process: false,
    };
    let info = MessageInfo::from_rmw_message_info(&raw);
    assert_eq!(info.publication_sequence_number(), 17);
    assert_eq!(info.reception_sequence_number(), u64::MAX - 1);
    assert_eq!(info.publisher_gid().data(), data);
    assert_eq!(
        info.publisher_gid().implementation_identifier(),
        Some("rmw_cyclonedds_cpp")
    );
}

#[test]
fn unsupported_sequence_numbers_are_kept_and_reported() {
    let mut raw = record(1, 1);
    raw.publication_sequence_number = SEQUENCE_NUMBER_UNSUPPORTED;
    raw.reception_sequence_number = 5;
    let info = MessageInfo::from_rmw_message_info(&raw);
    assert_eq!(info.publication_sequence_number(), u64::MAX);
    assert_eq!(info.publication_sequence_number_if_supported(), None);
    assert_eq!(info.reception_sequence_number_if_supported(), Some(5));
}

#[test]
fn gid_equality_ignores_implementation_name() {
    let mut a = record(1, 1);
    a.publisher_gid.data = [4; RMW_GID_STORAGE_SIZE];
    a.publisher_gid.implementation_identifier = Some("rmw_a");
    let mut b = a;
    b.publisher_gid.implementation_identifier = None;
    let ia = MessageInfo::from_rmw_message_info(&a);
    let ib = MessageInfo::from_rmw_message_info(&b);
    assert!(ia.publisher_gid() == ib.publisher_gid());
    assert_eq!(ia, ib);
}

#[test]
fn gid_with_other_bytes_differs() {
    let a = record(1, 1);
    let mut b = a;
    b.publisher_gid.data[RMW_GID_STORAGE_SIZE - 1] = 1;
    let ia = MessageInfo::from_rmw_message_info(&a);
    let ib = MessageInfo::from_rmw_message_info(&b);
    assert!(ia.publisher_gid() != ib.publisher_gid());
    assert_ne!(ia, ib);
}

#[test]
fn message_info_equality_compares_fields() {
    let a = MessageInfo::from_rmw_message_info(&record(3, 4));
    assert_eq!(a, MessageInfo::from_rmw_message_info(&record(3, 4)));
    assert_ne!(a, MessageInfo::from_rmw_message_info(&record(0, 4)));
    assert_ne!(a, MessageInfo::from_rmw_message_info(&record(3, 5)));
    let mut raw = record(3, 4);
    raw.reception_sequence_number = 1;
    assert_ne!(a, MessageInfo::from_rmw_message_info(&raw));
}

#[test]
fn checked_shifts_move_exactly() {
    let t = Timestamp::from_rmw_time_point(10).unwrap();
    assert_eq!(t.checked_add_nanos(5).unwrap().nanos_since_epoch(), 15);
    assert_eq!(t.checked_sub_nanos(15).unwrap().nanos_since_epoch(), -5);
    let low = Timestamp::unix_epoch().checked_sub_nanos(u64::MAX).unwrap();
    assert_eq!(low.nanos_since_epoch(), -(u64::MAX as i128));
    assert_eq!(low.checked_add_nanos(u64::MAX), Some(Timestamp::unix_epoch()));
}

use firefly_shell::codec::{
    decode_lifecycle_event, encode_lifecycle_event, encode_register_taskbar, encode_window_op,
    LifecycleKind, EVENT_WINDOW_LIFECYCLE, LIFECYCLE_RECORD_LEN, MINIMIZE_WINDOW,
    REGISTER_RECORD_LEN, REGISTER_TASKBAR, RESTORE_WINDOW, WINDOW_OP_RECORD_LEN,
};

#[test]
fn register_record_layout() {
    let name = b"shell.taskbar".to_vec();
    let rec = encode_register_taskbar(&name);
    assert_eq!(rec.len(), REGISTER_RECORD_LEN);
    assert_eq!(&rec[0..4], &REGISTER_TASKBAR.to_le_bytes());
    assert_eq!(&rec[4..4 + name.len()], name.as_slice());
    for i in 4 + name.len()..36 {
        assert_eq!(rec[i], 0);
    }
}

#[test]
fn register_record_truncates_long_names() {
    let name = vec![b'x'; 50];
    let rec = encode_register_taskbar(&name);
    assert_eq!(rec.len(), 36);
    for i in 4..36 {
        assert_eq!(rec[i], b'x');
    }
}

#[test]
fn window_op_record_layout() {
    let rec = encode_window_op(MINIMIZE_WINDOW, 0xDEAD_BEEF);
    assert_eq!(rec.len(), WINDOW_OP_RECORD_LEN);
    assert_eq!(&rec[0..4], &MINIMIZE_WINDOW.to_le_bytes());
    assert_eq!(&rec[4..8], &0xDEAD_BEEFu32.to_le_bytes());
    let rec2 = encode_window_op(RESTORE_WINDOW, 7);
    assert_eq!(&rec2[0..4], &RESTORE_WINDOW.to_le_bytes());
    assert_eq!(&rec2[4..8], &7u32.to_le_bytes());
}

#[test]
fn lifecycle_round_trip_three_byte_title() {
    let title = b"abc".to_vec();
    let rec = encode_lifecycle_event(42, LifecycleKind::Created, &title);
    assert_eq!(rec.len(), LIFECYCLE_RECORD_LEN);
    let ev = decode_lifecycle_event(&rec).expect("well-formed record must decode");
    assert_eq!(ev.window_id, 42);
    assert_eq!(ev.kind, LifecycleKind::Created);
    assert_eq!(ev.title, title);
}

#[test]
fn lifecycle_round_trip_all_kinds() {
    for (kind, num) in [
        (LifecycleKind::Created, 1u32),
        (LifecycleKind::Destroyed, 2),
        (LifecycleKind::Minimized, 3),
        (LifecycleKind::Restored, 4),
    ] {
        let title = b"Editor".to_vec();
        let rec = encode_lifecycle_event(9, kind, &title);
        assert_eq!(&rec[0..4], &EVENT_WINDOW_LIFECYCLE.to_le_bytes());
        assert_eq!(&rec[8..12], &num.to_le_bytes());
        let ev = decode_lifecycle_event(&rec).unwrap();
        assert_eq!(ev.window_id, 9);
        assert_eq!(ev.kind, kind);
        assert_eq!(ev.title, title);
    }
}

#[test]
fn lifecycle_title_truncated_at_field_size() {
    let title = vec![b'a'; 80];
    let rec = encode_lifecycle_event(1, LifecycleKind::Created, &title);
    assert_eq!(rec.len(), 76);
    let ev = decode_lifecycle_event(&rec).unwrap();
    // The field holds 64 bytes and no NUL terminator fits, so the whole
    // field is the title.
    assert_eq!(ev.title, vec![b'a'; 64]);
}

#[test]
fn decode_rejects_short_records() {
    let rec = encode_lifecycle_event(1, LifecycleKind::Created, &b"t".to_vec());
    let short = rec[..75].to_vec();
    assert!(decode_lifecycle_event(&short).is_none());
    assert!(decode_lifecycle_event(&Vec::new()).is_none());
}

#[test]
fn decode_rejects_wrong_opcode() {
    let mut rec = encode_lifecycle_event(1, LifecycleKind::Created, &b"t".to_vec());
    rec[0] = 99;
    assert!(decode_lifecycle_event(&rec).is_none());
}

#[test]
fn decode_rejects_unknown_event_type() {
    let mut rec = encode_lifecycle_event(1, LifecycleKind::Created, &b"t".to_vec());
    rec[8] = 0;
    assert!(decode_lifecycle_event(&rec).is_none());
    rec[8] = 5;
    assert!(decode_lifecycle_event(&rec).is_none());
}

#[test]
fn decode_accepts_trailing_bytes() {
    let mut rec = encode_lifecycle_event(3, LifecycleKind::Minimized, &b"xy".to_vec());
    rec.push(0xFF);
    let ev = decode_lifecycle_event(&rec).unwrap();
    assert_eq!(ev.window_id, 3);
    assert_eq!(ev.kind, LifecycleKind::Minimized);
    assert_eq!(ev.title, b"xy".to_vec());
}

#[test]
fn title_stops_at_first_nul() {
    let mut rec = encode_lifecycle_event(5, LifecycleKind::Restored, &b"abcdef".to_vec());
    // Plant a NUL in the middle of the title field.
    rec[12 + 2] = 0;
    let ev = decode_lifecycle_event(&rec).unwrap();
    assert_eq!(ev.title, b"ab".to_vec());
}

use suidsnoop::event::{SuidEvent, PATH_CAP};
use suidsnoop::render::{
    decision_label, decode_path, display_name, padded, render_audit_line, render_line,
    u32_to_string,
};
use suidsnoop::wire::{encode_event, parse_event, EVENT_WIRE_LEN};

fn event_with(path: &[u8], uid: u32, gid: u32, denied: bool) -> SuidEvent {
    let mut buf = vec![0u8; PATH_CAP];
    buf[..path.len()].copy_from_slice(path);
    SuidEvent { path: buf, uid, gid, denied }
}

#[test]
fn wire_round_trip() {
    let ev = event_with(b"/usr/bin/sudo", 1000, 100, true);
    let bytes = encode_event(&ev);
    assert_eq!(bytes.len(), EVENT_WIRE_LEN);
    let back = parse_event(&bytes).unwrap();
    assert_eq!(back.path, ev.path);
    assert_eq!(back.uid, 1000);
    assert_eq!(back.gid, 100);
    assert!(back.denied);
}

#[test]
fn wire_uses_little_endian_identifiers() {
    let ev = event_with(b"/x", 0x01020304, 0xA0B0C0D0, false);
    let bytes = encode_event(&ev);
    assert_eq!(&bytes[PATH_CAP..PATH_CAP + 4], &[0x04, 0x03, 0x02, 0x01]);
    assert_eq!(&bytes[PATH_CAP + 4..PATH_CAP + 8], &[0xD0, 0xC0, 0xB0, 0xA0]);
    assert_eq!(bytes[PATH_CAP + 8], 0);
}

#[test]
fn parse_rejects_short_buffers() {
    let bytes = vec![0u8; EVENT_WIRE_LEN - 1];
    assert!(parse_event(&bytes).is_none());
}

#[test]
fn parse_reads_trailing_slack() {
    // A ring-buffer read may hand back more bytes than one record.
    let ev = event_with(b"/usr/bin/su", 7, 8, true);
    let mut bytes = encode_event(&ev);
    bytes.extend_from_slice(&[0xEE; 11]);
    let back = parse_event(&bytes).unwrap();
    assert_eq!(back.uid, 7);
    assert_eq!(back.gid, 8);
    assert!(back.denied);
}

#[test]
fn decimal_rendering() {
    assert_eq!(u32_to_string(0), "0");
    assert_eq!(u32_to_string(7), "7");
    assert_eq!(u32_to_string(1000), "1000");
    assert_eq!(u32_to_string(4294967295), "4294967295");
}

#[test]
fn display_name_prefers_resolved_name() {
    assert_eq!(display_name(Some("root".to_owned()), 0), "root");
    assert_eq!(display_name(None, 65534), "65534");
}

#[test]
fn decision_labels() {
    assert_eq!(decision_label(true), "DENIED");
    assert_eq!(decision_label(false), "ALLOWED");
}

#[test]
fn padding_fills_to_width() {
    assert_eq!(padded("ab", 5), "ab   ");
    assert_eq!(padded("", 3), "   ");
    assert_eq!(padded("abcdef", 4), "abcdef");
}

#[test]
fn path_decoding_substitutes_placeholder() {
    let good = b"/usr/bin/sudo".to_vec();
    assert_eq!(decode_path(&good), "/usr/bin/sudo");
    let bad = vec![0xFFu8, 0xFE, 0xFD];
    assert_eq!(decode_path(&bad), "Unknown");
}

#[test]
fn line_layout_is_fixed_width() {
    let line = render_line("2021-06-01", "12:00:00", "DENIED", "alice", "users", "/usr/bin/sudo");
    assert_eq!(
        line,
        format!(
            "{:<10} {:<8} {:<8} {:<16} {:<16} {:<32}",
            "2021-06-01", "12:00:00", "DENIED", "alice", "users", "/usr/bin/sudo"
        )
    );
}

#[test]
fn audit_line_from_record() {
    let mut path = b"/usr/bin/passwd".to_vec();
    path.push(0);
    let ev = SuidEvent { path, uid: 1000, gid: 100, denied: false };
    let line = render_audit_line(&ev, "2021-06-01", "12:00:00", None, Some("users".to_owned()));
    assert_eq!(
        line,
        format!(
            "{:<10} {:<8} {:<8} {:<16} {:<16} {:<32}",
            "2021-06-01", "12:00:00", "ALLOWED", "1000", "users", "/usr/bin/passwd\u{0}"
        )
    );
}

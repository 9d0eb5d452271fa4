use mac_disk_monitor::lines::{take_line, LINE_END};

#[test]
fn line_end_is_the_newline() {
    assert_eq!(LINE_END, b'\n');
}

#[test]
fn take_line_takes_the_first_line_and_keeps_the_rest() {
    let mut pending = b"one\ntwo\nthr".to_vec();
    assert_eq!(take_line(&mut pending), Some(b"one".to_vec()));
    assert_eq!(pending, b"two\nthr".to_vec());
    assert_eq!(take_line(&mut pending), Some(b"two".to_vec()));
    assert_eq!(pending, b"thr".to_vec());
    assert_eq!(take_line(&mut pending), None);
    assert_eq!(pending, b"thr".to_vec());
}

#[test]
fn take_line_leaves_output_without_line_end_alone() {
    let mut empty: Vec<u8> = Vec::new();
    assert_eq!(take_line(&mut empty), None);
    assert!(empty.is_empty());

    let mut partial = b"***DiskPeek ('disk3s1')".to_vec();
    assert_eq!(take_line(&mut partial), None);
    assert_eq!(partial, b"***DiskPeek ('disk3s1')".to_vec());
}

#[test]
fn take_line_gives_empty_lines() {
    let mut pending = b"\n\nx\n".to_vec();
    assert_eq!(take_line(&mut pending), Some(Vec::new()));
    assert_eq!(pending, b"\nx\n".to_vec());
    assert_eq!(take_line(&mut pending), Some(Vec::new()));
    assert_eq!(take_line(&mut pending), Some(b"x".to_vec()));
    assert!(pending.is_empty());
    assert_eq!(take_line(&mut pending), None);
}

#[test]
fn take_line_keeps_carriage_returns_and_other_bytes() {
    let mut pending = vec![b'a', b'\r', b'\n', 0xff, 0x00, b'\n'];
    assert_eq!(take_line(&mut pending), Some(vec![b'a', b'\r']));
    assert_eq!(take_line(&mut pending), Some(vec![0xff, 0x00]));
    assert!(pending.is_empty());
}

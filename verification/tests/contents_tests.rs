use pound::contents::{EditorContents, WriteError};

#[test]
fn new_buffer_is_empty() {
    let mut b = EditorContents::new();
    assert_eq!(b.take(), "");
}

#[test]
fn push_and_push_str_accumulate_in_order() {
    let mut b = EditorContents::new();
    b.push('~');
    b.push_str("abc");
    b.push(' ');
    b.push_str("xyz");
    assert_eq!(b.take(), "~abc xyz");
}

#[test]
fn write_accepts_valid_utf8_bytes() {
    let mut b = EditorContents::new();
    b.push_str("pre:");
    let r = b.write("héllo".as_bytes());
    assert_eq!(r, Ok(6));
    assert_eq!(b.take(), "pre:héllo");
}

#[test]
fn write_rejects_invalid_utf8_and_keeps_buffer() {
    let mut b = EditorContents::new();
    b.push_str("kept");
    let r = b.write(&[0xff, 0xfe, b'a']);
    assert_eq!(r, Err(WriteError::WriteZero));
    assert_eq!(b.take(), "kept");
}

#[test]
fn take_leaves_the_buffer_empty() {
    let mut b = EditorContents::new();
    b.push_str("one frame");
    assert_eq!(b.take(), "one frame");
    assert_eq!(b.take(), "");
    b.push('x');
    assert_eq!(b.take(), "x");
}

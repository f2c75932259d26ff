use alloc_benches::Buffer;

#[test]
fn fresh_buffer_is_zeroed() {
    let b = Buffer::allocate(5);
    assert_eq!(b.len(), 5);
    assert_eq!(b.as_slice(), &[0u8, 0, 0, 0, 0][..]);
}

#[test]
fn empty_buffer_can_be_made_and_touched() {
    let mut b = Buffer::allocate(0);
    assert!(!b.touch());
    assert_eq!(b.len(), 0);
    assert!(b.as_slice().is_empty());
}

#[test]
fn touch_marks_both_ends_of_eight_bytes() {
    let mut b = Buffer::allocate(8);
    assert!(b.touch());
    assert_eq!(b.as_slice(), &[1u8, 0, 0, 0, 0, 0, 0, 2][..]);
}

#[test]
fn touch_leaves_seven_bytes_alone() {
    let mut b = Buffer::allocate(7);
    assert!(!b.touch());
    assert_eq!(b.as_slice(), &[0u8; 7][..]);
}

#[test]
fn touch_leaves_one_byte_alone() {
    let mut b = Buffer::allocate(1);
    assert!(!b.touch());
    assert_eq!(b.as_slice(), &[0u8][..]);
}

#[test]
fn touch_marks_only_the_ends_of_a_large_buffer() {
    let len = 1 << 20;
    let mut b = Buffer::allocate(len);
    assert!(b.touch());
    let bytes = b.as_slice();
    assert_eq!(bytes.len(), len);
    assert_eq!(bytes[0], 1);
    assert_eq!(bytes[len - 1], 2);
    assert!(bytes[1..len - 1].iter().all(|&x| x == 0));
}

#[test]
fn touching_twice_changes_nothing_more() {
    let mut b = Buffer::allocate(9);
    assert!(b.touch());
    assert!(b.touch());
    assert_eq!(b.as_slice(), &[1u8, 0, 0, 0, 0, 0, 0, 0, 2][..]);
}

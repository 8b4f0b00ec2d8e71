use byteview::carrier::ByteBuffer;

#[test]
fn test_bb_access() {
    let mut bb = ByteBuffer::from(vec![1u8, 2, 3]);
    assert_eq!(bb.as_slice(), &[1u8, 2, 3]);
    assert_eq!(bb.as_mut_slice(), &mut [1u8, 2, 3]);
    bb.as_mut_slice()[2] = 4;

    assert_eq!(bb.into_vec(), &[1u8, 2, 4]);
}

#[test]
fn test_bb_empty() {
    let mut bb = ByteBuffer::default();
    assert_eq!(bb.as_slice(), &[]);
    assert_eq!(bb.as_mut_slice(), &[]);
    assert_eq!(bb.destroy_into_vec(), &[]);
}

#[test]
fn test_bb_new() {
    let bb = ByteBuffer::new_with_size(5);
    assert_eq!(bb.as_slice(), &[0u8, 0, 0, 0, 0]);
    bb.destroy();

    let bb = ByteBuffer::new_with_size(0);
    assert_eq!(bb.as_slice(), &[]);
    bb.destroy();

    let bb = ByteBuffer::from_vec(vec![]);
    assert_eq!(bb.as_slice(), &[]);
    bb.destroy();
}

#[test]
fn carrier_len_counts_bytes() {
    let bb = ByteBuffer::from_vec(vec![7u8, 8, 9]);
    assert_eq!(bb.len(), 3);
    assert_eq!(bb.destroy_into_vec(), vec![7u8, 8, 9]);
}

use byteview::{Buffer, ByteBuffer, CloneByteBuffer, IBuffer, Store};

#[test]
fn test_buffer_new() {
    let mut buffer = Buffer::default();
    buffer.flip().clear().mark_();
    buffer.flip().clear().mark();

    let mut buffer = ByteBuffer::new_(0, 0, 1, 1).unwrap();
    buffer.flip().clear().mark_();
    buffer.flip().clear().mark();

    let mut store = Store::new();
    let mut buffer = CloneByteBuffer::new2(&mut store, 10, 10).unwrap();
    buffer.flip().clear().mark_();
    buffer.flip().clear().mark();

    for i in 0..5 {
        buffer.put(&mut store, i).unwrap();
    }
    buffer.flip();
    for i in 0..5 {
        let j = buffer.get(&store).unwrap();
        assert_eq!(i, j);
    }
}

#[test]
fn test_ops_vec() {
    let mut v = Vec::new();
    v.push(1);

    let mut v1 = v.clone();
    v1.push(2);

    println!("v1:{:?}", v1);
    println!("v:{:?}", v);

    let mut v2 = v1;
    v2.push(3);
    println!("v2:{:?}", v2);

    let v = vec![1, 2, 3, 4, 5];
    let v1 = &v[0..2];
    let mut v2 = v1.to_vec();
    v2[0] = 11;
    println!("v:{:?}", v);
    println!("v1:{:?}", v1);
    println!("v2:{:?}", v2);
}

#[test]
fn test_buffer_slice() {
    let mut store = Store::new();
    let mut buffer = CloneByteBuffer::new2(&mut store, 10, 10).unwrap();
    for i in 0..5 {
        buffer.put(&mut store, i).unwrap();
    }
    assert_eq!(buffer.position(), 5);
    assert_eq!(buffer.offset, 0);
    assert_eq!(store.region(buffer.hb).to_vec(), vec![0, 1, 2, 3, 4, 0, 0, 0, 0, 0]);

    let mut slice = buffer.slice();
    assert_eq!(slice.position(), 0);
    assert_eq!(slice.offset, 5);
    assert_eq!(slice.limit(), 5);
    assert_eq!(slice.cap(), 5);
    assert_eq!(store.region(slice.hb).to_vec(), vec![0, 1, 2, 3, 4, 0, 0, 0, 0, 0]);

    for i in 10..12 {
        slice.put(&mut store, i).unwrap();
    }
    assert_eq!(slice.position(), 2);
    assert_eq!(slice.offset, 5);
    assert_eq!(store.region(slice.hb).to_vec(), vec![0, 1, 2, 3, 4, 10, 11, 0, 0, 0]);

    for i in 20..23 {
        buffer.put(&mut store, i).unwrap();
    }
    assert_eq!(buffer.position(), 8);
    assert_eq!(buffer.offset, 0);
    assert_eq!(store.region(buffer.hb).to_vec(), vec![0, 1, 2, 3, 4, 20, 21, 22, 0, 0]);
}

#[test]
fn test_buffer_slice_refcell() {
    let mut store = Store::new();
    let mut buffer = CloneByteBuffer::new2(&mut store, 10, 10).unwrap();
    for i in 0..5 {
        buffer.put(&mut store, i).unwrap();
    }
    let mut slice = buffer.slice();
    assert_eq!(buffer.position(), 5);
    assert_eq!(slice.position(), 0);
    assert_eq!(store.region(slice.hb).to_vec(), vec![0, 1, 2, 3, 4, 0, 0, 0, 0, 0]);

    slice.put(&mut store, 10).unwrap();
    slice.put(&mut store, 11).unwrap();

    println!("{:?}", slice);
    println!("{:?}", buffer);
}

#[test]
fn test_buffer_slice_arc() {
    let mut store = Store::new();
    let mut buffer = CloneByteBuffer::new2(&mut store, 10, 10).unwrap();
    for i in 0..5 {
        buffer.put(&mut store, i).unwrap();
    }
    let mut slice = buffer.slice();
    assert_eq!(buffer.position(), 5);
    assert_eq!(slice.position(), 0);

    slice.put(&mut store, 10).unwrap();
    slice.put(&mut store, 11).unwrap();

    println!("{:?}", slice);
    println!("{:?}", buffer);
}

#[test]
fn test_buffer_get_put() {
    let mut v: Vec<u8> = Vec::default();
    for _ in 0..5 {
        v.push(0);
    }

    // get_buf: read from the view into the vector
    let mut store = Store::new();
    let mut buffer = CloneByteBuffer::new2(&mut store, 10, 10).unwrap();
    for i in 0..5 {
        buffer.put(&mut store, i).unwrap();
    }

    buffer.flip();
    buffer.get_buf(&store, &mut v, 0, 5).unwrap();
    assert_eq!(v, vec![0, 1, 2, 3, 4]);

    // put_buf: write the vector into a new view
    let mut buffer = CloneByteBuffer::new2(&mut store, 5, 5).unwrap();
    buffer.put_buf(&mut store, &v, 0, 5).unwrap();
    assert_eq!(buffer.position(), 5);
    assert_eq!(buffer.offset, 0);
    assert_eq!(store.region(buffer.hb).to_vec(), v);

    // put_buffer: write what remains of one view into another
    // if not flipped, nothing remains and nothing is copied
    buffer.flip();
    let mut buffer2 = CloneByteBuffer::new2(&mut store, 5, 5).unwrap();
    buffer2.put_buffer(&mut store, &mut buffer).unwrap();
    println!("{:?}", buffer2);
}

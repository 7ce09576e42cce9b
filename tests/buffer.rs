use prawn::tubes::buffer::{BufData, Buffer};

#[test]
fn add_add_take_leaves_the_tail() {
    let mut buf = Buffer::default();
    buf.add(&mut BufData::ByteVec(b"hello ".to_vec()));
    buf.add(&mut BufData::ByteVec(b"world".to_vec()));
    assert_eq!(buf.len(), 11);
    assert_eq!(buf.get(4), b"hell".to_vec());
    assert_eq!(buf.data, b"o world".to_vec());
    assert_eq!(buf.len(), 7);
}

#[test]
fn take_past_the_end_empties() {
    let mut buf = Buffer::default();
    buf.add(&mut BufData::ByteVec(b"ab".to_vec()));
    buf.add(&mut BufData::ByteVec(b"cd".to_vec()));
    assert_eq!(buf.get(10), b"abcd".to_vec());
    assert!(buf.is_empty());
    assert_eq!(buf.len(), 0);
    assert_eq!(buf.get(3), Vec::<u8>::new());
}

#[test]
fn take_exactly_all() {
    let mut buf = Buffer::default();
    buf.add(&mut BufData::ByteVec(b"xyz".to_vec()));
    assert_eq!(buf.get(3), b"xyz".to_vec());
    assert!(buf.is_empty());
}

#[test]
fn unget_then_take_returns_it() {
    let mut buf = Buffer::default();
    buf.add(&mut BufData::ByteVec(b"tail".to_vec()));
    buf.unget(BufData::ByteVec(b"head-".to_vec()));
    assert_eq!(buf.len(), 9);
    assert_eq!(buf.get(5), b"head-".to_vec());
    assert_eq!(buf.get(100), b"tail".to_vec());
}

#[test]
fn add_drains_the_source() {
    let mut other = Buffer::default();
    other.add(&mut BufData::ByteVec(b"123".to_vec()));
    let mut src = BufData::Buffer(other);
    let mut buf = Buffer::default();
    buf.add(&mut BufData::ByteVec(b"0".to_vec()));
    buf.add(&mut src);
    assert_eq!(buf.data, b"0123".to_vec());
    match src {
        BufData::Buffer(b) => assert!(b.is_empty()),
        BufData::ByteVec(_) => unreachable!(),
    }
    let mut pushed = Buffer::default();
    pushed.add(&mut BufData::ByteVec(b"<".to_vec()));
    buf.unget(BufData::Buffer(pushed));
    assert_eq!(buf.get(2), b"<0".to_vec());
}

#[test]
fn fill_size_defaults_to_4096() {
    let buf = Buffer::default();
    assert_eq!(buf.get_fill_size(None), 4096);
    assert_eq!(buf.get_fill_size(Some(9)), 9);
}

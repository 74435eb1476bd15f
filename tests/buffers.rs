use uring_buf::buf::{deref, BoundedBuf, Buf, FixedBuf, IoBuf, IoBufFixed, IoBufFixedMut, IoBufMut};

fn filled(addr: usize, capacity: usize, bytes: &[u8]) -> Buf {
    let mut b = Buf::new(addr, capacity);
    b.write_at(0, bytes);
    b.set_init(bytes.len());
    b
}

#[test]
fn new_buffer_is_empty_and_zeroed() {
    let b = Buf::new(0x1000, 8);
    assert_eq!(b.stable_ptr(), 0x1000);
    assert_eq!(b.bytes_total(), 8);
    assert_eq!(b.bytes_init(), 0);
    assert!(b.init_bytes().is_empty());
}

#[test]
fn from_vec_is_fully_initialized() {
    let b = Buf::from_vec(0x40, vec![9, 8, 7]);
    assert_eq!(b.stable_ptr(), 0x40);
    assert_eq!(b.bytes_total(), 3);
    assert_eq!(b.bytes_init(), 3);
    assert_eq!(b.init_bytes(), &[9, 8, 7]);
}

#[test]
fn slice_then_into_inner_gives_same_buffer() {
    let b = Buf::from_vec(0x1000, vec![1, 2, 3, 4, 5]);
    let s = b.slice(1..4);
    let back = s.into_inner();
    assert_eq!(back.stable_ptr(), 0x1000);
    assert_eq!(back.bytes_total(), 5);
    assert_eq!(back.bytes_init(), 5);
    assert_eq!(back.init_bytes(), &[1, 2, 3, 4, 5]);
}

#[test]
fn set_init_exposes_exactly_n_bytes() {
    let mut b = Buf::new(0x2000, 64);
    b.write_at(0, &[7u8; 30]);
    b.set_init(20);
    assert_eq!(b.bytes_init(), 20);
    assert_eq!(b.init_bytes(), &[7u8; 20][..]);
    assert_eq!(deref(&b).len(), 20);
    b.set_init(5);
    assert_eq!(b.bytes_init(), 5);
    assert_eq!(deref(&b), &[7u8; 5][..]);
    b.set_init(64);
    assert_eq!(b.bytes_init(), 64);
}

#[test]
fn slice_pointer_and_length_follow_the_range() {
    let bytes: Vec<u8> = (0u8..16).collect();
    let b = filled(1000, 32, &bytes);
    let s = b.slice(4..12);
    assert_eq!(s.stable_ptr(), 1004);
    assert_eq!(s.bytes_total(), 8);
    assert_eq!(s.bytes_init(), 8);
    assert_eq!(s.init_bytes(), &bytes[4..12]);
    assert_eq!(s.begin(), 4);
    assert_eq!(s.end(), 12);
    assert_eq!(s.get_ref().bytes_init(), 16);
}

#[test]
fn slice_past_initialized_bytes_exposes_fewer() {
    let bytes: Vec<u8> = (0u8..16).collect();
    let s = filled(1000, 32, &bytes).slice(10..20);
    assert_eq!(s.stable_ptr(), 1010);
    assert_eq!(s.bytes_total(), 10);
    assert_eq!(s.bytes_init(), 6);
    assert_eq!(s.init_bytes(), &bytes[10..16]);
    let t = s.into_inner().slice(20..30);
    assert_eq!(t.bytes_init(), 0);
    assert!(t.init_bytes().is_empty());
}

#[test]
fn slice_full_round_trip() {
    let b = filled(0x300, 16, &[1, 2, 3]);
    let s = b.slice_full();
    assert_eq!(s.begin(), 0);
    assert_eq!(s.end(), 3);
    assert_eq!(s.bytes_total(), 3);
    assert_eq!(s.init_bytes(), &[1, 2, 3]);
    let back = s.into_inner();
    assert_eq!(back.stable_ptr(), 0x300);
    assert_eq!(back.bytes_total(), 16);
    assert_eq!(back.bytes_init(), 3);
    assert_eq!(back.init_bytes(), &[1, 2, 3]);
}

#[test]
fn empty_range_gives_empty_slice() {
    let b = filled(0x500, 8, &[1, 2, 3, 4, 5, 6]);
    let s = b.slice(5..5);
    assert_eq!(s.stable_ptr(), 0x505);
    assert_eq!(s.bytes_total(), 0);
    assert_eq!(s.bytes_init(), 0);
    assert!(s.init_bytes().is_empty());
    let e = s.into_inner().slice(8..8);
    assert_eq!(e.bytes_total(), 0);
}

#[test]
fn completion_into_whole_buffer() {
    let mut b = Buf::new(0x7000, 64);
    assert_eq!(b.bytes_init(), 0);
    let ptr = b.stable_mut_ptr();
    assert_eq!(ptr, 0x7000);
    let data: Vec<u8> = (100u8..120).collect();
    b.write_at(0, &data);
    b.set_init(20);
    assert_eq!(b.bytes_init(), 20);
    assert_eq!(b.init_bytes(), &data[..]);
}

#[test]
fn completion_into_slice_lands_at_its_offset() {
    let b = Buf::new(0x8000, 128);
    let mut s = b.slice(16..48);
    assert_eq!(s.stable_mut_ptr(), 0x8010);
    s.write_at(0, &[5u8; 10]);
    s.set_init(10);
    assert_eq!(s.bytes_init(), 10);
    let back = s.into_inner();
    assert_eq!(back.bytes_init(), 26);
    assert_eq!(&back.init_bytes()[..16], &[0u8; 16][..]);
    assert_eq!(&back.init_bytes()[16..26], &[5u8; 10][..]);
}

#[test]
fn slice_set_init_keeps_a_higher_mark() {
    let b = filled(0, 64, &[1u8; 40]);
    let mut s = b.slice(8..24);
    assert_eq!(s.bytes_init(), 16);
    s.set_init(4);
    assert_eq!(s.bytes_init(), 16);
    assert_eq!(s.into_inner().bytes_init(), 40);
}

#[test]
fn fixed_slice_keeps_registration_index() {
    let f = FixedBuf::new(0x9000, 64, 3);
    let s = f.slice(0..32);
    assert_eq!(IoBufFixed::buf_index(&s), 3);
    assert_eq!(IoBufFixedMut::buf_index(&s), 3);
    assert_eq!(s.bytes_total(), 32);
    let back = s.into_inner();
    assert_eq!(IoBufFixed::buf_index(&back), 3);
}

#[test]
fn fixed_set_buf_index() {
    let mut f = FixedBuf::new(0x9000, 16, 0);
    f.set_buf_index(7);
    assert_eq!(IoBufFixed::buf_index(&f), 7);
    assert_eq!(IoBufFixedMut::buf_index(&f), 7);
    let mut s = f.slice(2..10);
    s.set_buf_index(9);
    assert_eq!(IoBufFixedMut::buf_index(&s), 9);
    let back = s.into_inner();
    assert_eq!(IoBufFixed::buf_index(&back), 9);
    assert_eq!(back.stable_ptr(), 0x9000);
}

#[test]
fn fixed_buffer_completion() {
    let mut f = FixedBuf::new(0x100, 32, 2);
    f.write_at(4, &[1, 2, 3]);
    f.set_init(7);
    assert_eq!(f.bytes_init(), 7);
    assert_eq!(f.init_bytes(), &[0, 0, 0, 0, 1, 2, 3]);
    assert_eq!(IoBufFixed::buf_index(&f), 2);
}

#[test]
fn slice_of_a_slice() {
    let bytes: Vec<u8> = (0u8..32).collect();
    let inner = filled(0x100, 32, &bytes).slice(8..24);
    let outer = inner.slice(2..6);
    assert_eq!(outer.stable_ptr(), 0x10a);
    assert_eq!(outer.init_bytes(), &bytes[10..14]);
    let back = outer.into_inner().into_inner();
    assert_eq!(back.bytes_init(), 32);
}

#[test]
fn into_parts_returns_buffer_and_range() {
    let b = filled(0x600, 32, &[4u8; 12]);
    let mut s = b.slice(3..9);
    s.set_init(6);
    let (back, range) = s.into_parts();
    assert_eq!(range, 3..9);
    assert_eq!(back.stable_ptr(), 0x600);
    assert_eq!(back.bytes_init(), 12);
}

use pdf2png::bridge::cairo_status_t;
use pdf2png::sink::write_to_memory;
use pdf2png::sink::ByteBuffer;

#[test]
fn sink_append_sequence_100_5000_1() {
    let mut b = ByteBuffer::new();
    assert_eq!(b.size(), 0);
    assert_eq!(b.capacity(), 0);

    b.accept(&[7u8; 100]).unwrap();
    assert_eq!(b.size(), 100);
    assert_eq!(b.capacity(), 100);
    assert!(b.size() <= b.capacity());

    b.accept(&[8u8; 5000]).unwrap();
    assert_eq!(b.size(), 5100);
    assert_eq!(b.capacity(), 5100);
    assert!(b.size() <= b.capacity());

    b.accept(&[9u8; 1]).unwrap();
    assert_eq!(b.size(), 5101);
    assert_eq!(b.capacity(), 5101);
    assert!(b.size() <= b.capacity());
}

#[test]
fn sink_preserves_existing_bytes_across_growth() {
    let mut b = ByteBuffer::new();
    b.accept(&[1, 2]).unwrap();
    b.accept(&[3, 4, 5]).unwrap();
    assert_eq!(b.data(), &[1, 2, 3, 4, 5]);
    assert_eq!(b.into_bytes(), vec![1, 2, 3, 4, 5]);
}

#[test]
fn sink_append_within_capacity_keeps_capacity() {
    // Grow once to 8, drain nothing; appending into spare capacity
    // must not grow further.
    let mut b = ByteBuffer::from_vec(vec![0u8; 8]);
    assert_eq!(b.capacity(), 8);
    b.accept(&[1, 2]).unwrap();
    // 8 + 2 > 8: grown to exactly 10.
    assert_eq!(b.capacity(), 10);
    assert_eq!(b.size(), 10);
}

#[test]
fn sink_empty_append_is_accepted() {
    let mut b = ByteBuffer::new();
    b.accept(&[]).unwrap();
    assert_eq!(b.size(), 0);
    assert_eq!(b.capacity(), 0);
}

#[test]
fn write_to_memory_reports_success_and_stores_chunk() {
    let mut b = ByteBuffer::new();
    let png_signature: [u8; 8] = [0x89, 0x50, 0x4E, 0x47, 0x0D, 0x0A, 0x1A, 0x0A];
    let status = write_to_memory(&mut b, &png_signature);
    assert_eq!(status, cairo_status_t::CAIRO_STATUS_SUCCESS);
    assert_eq!(b.data(), &png_signature);
}

#[test]
fn write_to_memory_owes_success_when_the_chunk_fits() {
    // A chunk that fits the capacity already there needs no allocation:
    // the callback core must answer success, never out-of-memory.
    let mut b = ByteBuffer::from_vec(vec![1, 2, 3]);
    assert_eq!(write_to_memory(&mut b, &[]), cairo_status_t::CAIRO_STATUS_SUCCESS);
    assert_eq!(b.size(), 3);
    assert_eq!(b.capacity(), 3);
    assert_eq!(b.data(), &[1, 2, 3]);
}

#[test]
fn from_vec_capacity_is_its_size() {
    let b = ByteBuffer::from_vec(vec![5, 6, 7]);
    assert_eq!(b.size(), 3);
    assert_eq!(b.capacity(), 3);
    assert_eq!(b.data(), &[5, 6, 7]);
}

//! Ring buffer transport behavior: FIFO round trips, rejection when
//! full, and recovery after draining.

use suraksha_core::ipc::IpcError;
use suraksha_core::ring_buffer::RingBufferTransport;

#[test]
fn round_trip_returns_data_unchanged() {
    // bytes written come back exactly, in order
    let mut rb = RingBufferTransport::new(4096);
    let data = vec![1u8, 2, 3, 4, 5, 6, 7, 8, 9];
    assert_eq!(rb.write(&data), Ok(9));
    let mut dest = vec![0u8; 9];
    assert_eq!(rb.read(&mut dest), Ok(9));
    assert_eq!(dest, data);
    assert_eq!(rb.occupied(), 0);
}

#[test]
fn fifo_order_across_several_writes() {
    let mut rb = RingBufferTransport::new(64);
    rb.write(&[10, 11, 12]).unwrap();
    rb.write(&[13, 14]).unwrap();
    rb.write(&[15]).unwrap();
    let mut dest = vec![0u8; 6];
    assert_eq!(rb.read(&mut dest), Ok(6));
    assert_eq!(dest, vec![10, 11, 12, 13, 14, 15]);
}

#[test]
fn wraparound_preserves_contents() {
    // drive the cursors over the end of the region several times
    let mut rb = RingBufferTransport::new(8);
    rb.write(&[1, 2, 3, 4, 5]).unwrap();
    let mut dest = vec![0u8; 3];
    rb.read(&mut dest).unwrap();
    assert_eq!(dest, vec![1, 2, 3]);
    // the next write spans the boundary
    rb.write(&[6, 7, 8, 9]).unwrap();
    let mut rest = vec![0u8; 6];
    assert_eq!(rb.read(&mut rest), Ok(6));
    assert_eq!(rest, vec![4, 5, 6, 7, 8, 9]);
}

#[test]
fn full_buffer_rejects_then_recovers() {
    // writes totaling the whole capacity fill the transport; any further
    // write of more than zero bytes is rejected whole until a read frees
    // room
    let mut rb = RingBufferTransport::new(4096);
    let chunk = vec![7u8; 1024];
    for _ in 0..4 {
        assert_eq!(rb.write(&chunk), Ok(1024));
    }
    assert_eq!(rb.occupied(), 4096);
    assert_eq!(rb.write(&[1]), Err(IpcError::BufferFull));
    assert_eq!(rb.write(&[1, 2, 3]), Err(IpcError::BufferFull));
    // a zero-byte write trivially fits
    assert_eq!(rb.write(&[]), Ok(0));

    let mut dest = vec![0u8; 3];
    assert_eq!(rb.read(&mut dest), Ok(3));
    assert_eq!(dest, vec![7, 7, 7]);
    assert_eq!(rb.write(&[1, 2, 3]), Ok(3));
    assert_eq!(rb.occupied(), 4096);
}

#[test]
fn oversized_write_rejected_whole() {
    let mut rb = RingBufferTransport::new(16);
    assert_eq!(rb.write(&[0u8; 17]), Err(IpcError::BufferFull));
    assert_eq!(rb.occupied(), 0);
}

#[test]
fn empty_read_rejected() {
    let mut rb = RingBufferTransport::new(16);
    let mut dest = vec![0u8; 4];
    assert_eq!(rb.read(&mut dest), Err(IpcError::BufferEmpty));
    assert_eq!(dest, vec![0u8; 4]);
}

#[test]
fn short_destination_takes_a_prefix() {
    let mut rb = RingBufferTransport::new(32);
    rb.write(&[1, 2, 3, 4, 5]).unwrap();
    let mut dest = vec![9u8, 9];
    assert_eq!(rb.read(&mut dest), Ok(2));
    assert_eq!(dest, vec![1, 2]);
    assert_eq!(rb.occupied(), 3);
}

#[test]
fn peek_does_not_consume() {
    let mut rb = RingBufferTransport::new(16);
    rb.write(&[41, 42, 43]).unwrap();
    assert_eq!(rb.peek(0), 41);
    assert_eq!(rb.peek(2), 43);
    assert_eq!(rb.occupied(), 3);
}

#[test]
fn capacity_is_fixed() {
    let rb = RingBufferTransport::new(128);
    assert_eq!(rb.capacity_bytes(), 128);
}

use audio_anemometer::ring_buffer::RingBuffer;
use audio_anemometer::ConfigurationError;

#[test]
fn zero_capacity_is_rejected() {
    let result: Result<RingBuffer<i64>, ConfigurationError> = RingBuffer::new(0);
    assert!(matches!(result, Err(ConfigurationError)));
}

#[test]
fn new_buffer_is_empty() {
    let buffer: RingBuffer<i64> = RingBuffer::new(3).unwrap();
    assert_eq!(buffer.len(), 0);
    assert!(buffer.is_empty());
    assert!(!buffer.is_full());
    assert_eq!(buffer.capacity(), 3);
    assert_eq!(buffer.iter(), Vec::<i64>::new());
}

#[test]
fn push_below_capacity_evicts_nothing() {
    let mut buffer: RingBuffer<i64> = RingBuffer::new(3).unwrap();
    assert_eq!(buffer.push_back(10), None);
    assert_eq!(buffer.push_back(20), None);
    assert_eq!(buffer.len(), 2);
    assert!(!buffer.is_full());
    assert_eq!(buffer.iter(), vec![10, 20]);
}

#[test]
fn push_at_capacity_evicts_oldest() {
    let mut buffer: RingBuffer<i64> = RingBuffer::new(3).unwrap();
    assert_eq!(buffer.push_back(1), None);
    assert_eq!(buffer.push_back(2), None);
    assert_eq!(buffer.push_back(3), None);
    assert!(buffer.is_full());
    assert_eq!(buffer.push_back(4), Some(1));
    assert_eq!(buffer.push_back(5), Some(2));
    assert_eq!(buffer.iter(), vec![3, 4, 5]);
    assert_eq!(buffer.len(), 3);
}

#[test]
fn length_never_exceeds_capacity_and_fullness_is_permanent() {
    let capacity: usize = 7;
    let mut buffer: RingBuffer<i64> = RingBuffer::new(capacity).unwrap();
    let total: i64 = 100;
    for value in 0..total {
        buffer.push_back(value);
        assert!(buffer.len() <= capacity);
        if value as usize >= capacity - 1 {
            assert!(buffer.is_full());
        }
    }
    // The buffer holds exactly the 7 most recently pushed values, in order.
    assert_eq!(buffer.iter(), vec![93, 94, 95, 96, 97, 98, 99]);
}

#[test]
fn get_reads_oldest_first() {
    let mut buffer: RingBuffer<i64> = RingBuffer::new(2).unwrap();
    buffer.push_back(5);
    buffer.push_back(6);
    buffer.push_back(7);
    assert_eq!(*buffer.get(0), 6);
    assert_eq!(*buffer.get(1), 7);
}

#[test]
fn growing_preserves_contents() {
    let mut buffer: RingBuffer<i64> = RingBuffer::new(2).unwrap();
    buffer.push_back(1);
    buffer.push_back(2);
    buffer.set_capacity(4);
    assert_eq!(buffer.capacity(), 4);
    assert_eq!(buffer.iter(), vec![1, 2]);
    assert_eq!(buffer.push_back(3), None);
    assert_eq!(buffer.push_back(4), None);
    assert_eq!(buffer.push_back(5), Some(1));
}

#[test]
fn shrinking_evicts_oldest() {
    let mut buffer: RingBuffer<i64> = RingBuffer::new(5).unwrap();
    for value in 1..6 {
        buffer.push_back(value as i64);
    }
    buffer.set_capacity(2);
    assert_eq!(buffer.capacity(), 2);
    assert_eq!(buffer.iter(), vec![4, 5]);
    assert!(buffer.is_full());
}

#[test]
fn snapshot_is_independent() {
    let mut buffer: RingBuffer<i64> = RingBuffer::new(3).unwrap();
    buffer.push_back(1);
    buffer.push_back(2);
    let copy = buffer.snapshot();
    buffer.push_back(3);
    buffer.push_back(4);
    assert_eq!(copy.iter(), vec![1, 2]);
    assert_eq!(copy.capacity(), 3);
    assert_eq!(buffer.iter(), vec![2, 3, 4]);
}

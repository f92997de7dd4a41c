use rust_aec::sync::{AudioRingBuf, RING_CAPACITY};

#[test]
fn samples_come_out_in_the_order_they_went_in() {
    let (mut producer, mut consumer) = AudioRingBuf::new(8).split();
    assert_eq!(producer.push(&[1, 2, 3]), 3);
    assert_eq!(producer.available(), 3);
    assert_eq!(consumer.available(), 3);
    let mut two = [9u32; 2];
    assert_eq!(consumer.pop(&mut two), 2);
    assert_eq!(two, [1, 2]);
    assert_eq!(producer.push(&[4, 5]), 2);
    let mut rest = [9u32; 5];
    assert_eq!(consumer.pop(&mut rest), 3);
    assert_eq!(rest, [3, 4, 5, 9, 9]);
    assert_eq!(consumer.available(), 0);
    assert_eq!(producer.available(), 0);
}

#[test]
fn a_pop_takes_what_waits() {
    let (mut producer, mut consumer) = AudioRingBuf::new(6).split();
    let mut sent = Vec::new();
    let mut taken = Vec::new();
    for (push, room) in [(4usize, 3usize), (5, 2), (0, 9), (6, 6), (3, 0), (1, 2)] {
        let block: Vec<u32> = (0..push as u32).map(|k| 100 * sent.len() as u32 + k).collect();
        let n = producer.push(&block);
        sent.extend_from_slice(&block[..n]);
        let queued = consumer.available();
        assert_eq!(queued, sent.len() - taken.len());
        let mut dst = vec![7u32; room];
        let read = consumer.pop(&mut dst);
        assert_eq!(read, room.min(queued));
        assert!(dst[read..].iter().all(|s| *s == 7));
        assert_eq!(consumer.available(), queued - read);
        taken.extend_from_slice(&dst[..read]);
        assert_eq!(taken[..], sent[..taken.len()]);
    }
}

#[test]
fn a_full_ring_takes_what_fits() {
    let (mut producer, mut consumer) = AudioRingBuf::new(4).split();
    assert_eq!(producer.push(&[1, 2, 3, 4, 5, 6]), 4);
    assert_eq!(producer.push(&[7]), 0);
    assert_eq!(producer.available(), 4);
    let mut dst = [0u32; 6];
    assert_eq!(consumer.pop(&mut dst), 4);
    assert_eq!(dst, [1, 2, 3, 4, 0, 0]);
    assert_eq!(producer.push(&[8, 9]), 2);
    assert_eq!(consumer.pop(&mut dst[..1]), 1);
    assert_eq!(dst[0], 8);
    assert_eq!(consumer.available(), 1);
}

#[test]
fn an_empty_ring_gives_nothing() {
    let (mut producer, mut consumer) = AudioRingBuf::new(3).split();
    let mut dst = [7u32; 2];
    assert_eq!(consumer.pop(&mut dst), 0);
    assert_eq!(dst, [7, 7]);
    assert_eq!(producer.push(&[]), 0);
    assert_eq!(consumer.pop(&mut []), 0);
}

#[test]
fn a_ring_wraps_around() {
    let (mut producer, mut consumer) = AudioRingBuf::new(5).split();
    let mut next_in = 0u32;
    let mut next_out = 0u32;
    for round in 0..50usize {
        let block: Vec<u32> = (0..(round % 4) as u32).map(|k| next_in + k).collect();
        next_in += producer.push(&block) as u32;
        let mut dst = vec![0u32; (round + 1) % 4];
        let n = consumer.pop(&mut dst);
        for sample in &dst[..n] {
            assert_eq!(*sample, next_out);
            next_out += 1;
        }
    }
    assert_eq!(consumer.available() as u32, next_in - next_out);
}

#[test]
fn a_long_stream_arrives_whole() {
    let (mut producer, mut consumer) = AudioRingBuf::new(RING_CAPACITY).split();
    let mut sent = 0u32;
    let mut expected = 0u32;
    let mut dst = vec![0u32; 333];
    while expected < 50_000 {
        let block: Vec<u32> = (sent..(sent + 480).min(50_000)).collect();
        sent += producer.push(&block) as u32;
        let n = consumer.pop(&mut dst);
        for sample in &dst[..n] {
            assert_eq!(*sample, expected);
            expected += 1;
        }
    }
    assert_eq!(sent, 50_000);
}

#[test]
fn a_ring_holds_two_hundred_milliseconds() {
    assert_eq!(RING_CAPACITY, rust_aec::aec::SAMPLE_RATE / 5);
}

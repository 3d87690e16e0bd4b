use eleventh_echo::audio::{
    enqueue_and_flush, CircularSampleBuffer, FlushEnd, FlushReport, SendOutcome, CHUNK_SIZE,
};
use tokio::sync::mpsc::channel;

fn ramp(from: usize, len: usize) -> Vec<i16> {
    (from..from + len).map(|k| (k % 30000) as i16).collect()
}

#[test]
fn flush_sends_everything_when_the_channel_has_room() {
    let (sender, mut receiver) = channel::<Vec<i16>>(8);
    let mut ring = CircularSampleBuffer::new(10_000);
    let samples = ramp(0, 2500);

    let report = enqueue_and_flush(&sender, &mut ring, &samples);

    assert_eq!(report, FlushReport { delivered: 2500, end: FlushEnd::Drained });
    assert_eq!(ring.len(), 0);
    assert_eq!(receiver.try_recv().unwrap(), ramp(0, 1024));
    assert_eq!(receiver.try_recv().unwrap(), ramp(1024, 1024));
    assert_eq!(receiver.try_recv().unwrap(), ramp(2048, 452));
    assert!(receiver.try_recv().is_err());
}

#[test]
fn flush_of_a_whole_number_of_chunks_ends_drained() {
    let (sender, mut receiver) = channel::<Vec<i16>>(8);
    let mut ring = CircularSampleBuffer::new(10_000);

    let report = enqueue_and_flush(&sender, &mut ring, &ramp(0, 2 * CHUNK_SIZE));

    assert_eq!(report, FlushReport { delivered: 2048, end: FlushEnd::Drained });
    assert_eq!(receiver.try_recv().unwrap().len(), 1024);
    assert_eq!(receiver.try_recv().unwrap().len(), 1024);
    assert!(receiver.try_recv().is_err());
}

#[test]
fn flush_keeps_what_a_full_channel_does_not_take() {
    let (sender, mut receiver) = channel::<Vec<i16>>(2);
    let mut ring = CircularSampleBuffer::new(10_000);

    let report = enqueue_and_flush(&sender, &mut ring, &ramp(0, 3000));
    assert_eq!(report, FlushReport { delivered: 2048, end: FlushEnd::Backpressure });
    assert_eq!(ring.len(), 952);

    assert_eq!(receiver.try_recv().unwrap(), ramp(0, 1024));
    assert_eq!(receiver.try_recv().unwrap(), ramp(1024, 1024));

    let report = enqueue_and_flush(&sender, &mut ring, &ramp(3000, 100));
    assert_eq!(report, FlushReport { delivered: 1052, end: FlushEnd::Drained });
    assert_eq!(ring.len(), 0);
    assert_eq!(receiver.try_recv().unwrap(), ramp(2048, 1024));
    assert_eq!(receiver.try_recv().unwrap(), ramp(3072, 28));
}

#[test]
fn flush_retries_in_capture_order_after_backpressure() {
    let (sender, mut receiver) = channel::<Vec<i16>>(1);
    let mut ring = CircularSampleBuffer::new(10_000);
    let mut received: Vec<i16> = Vec::new();

    let first = enqueue_and_flush(&sender, &mut ring, &ramp(0, 1500));
    assert_eq!(first, FlushReport { delivered: 1024, end: FlushEnd::Backpressure });
    let second = enqueue_and_flush(&sender, &mut ring, &ramp(1500, 1500));
    assert_eq!(second, FlushReport { delivered: 0, end: FlushEnd::Backpressure });
    assert_eq!(ring.len(), 1976);

    loop {
        while let Ok(chunk) = receiver.try_recv() {
            received.extend(chunk);
        }
        let report = enqueue_and_flush(&sender, &mut ring, &[]);
        if report.end == FlushEnd::Drained && report.delivered == 0 {
            break;
        }
    }
    assert_eq!(received, ramp(0, 3000));
}

#[test]
fn flush_empties_the_buffer_when_the_channel_is_closed() {
    let (sender, receiver) = channel::<Vec<i16>>(4);
    drop(receiver);
    let mut ring = CircularSampleBuffer::new(10_000);

    let report = enqueue_and_flush(&sender, &mut ring, &ramp(0, 3000));

    assert_eq!(report, FlushReport { delivered: 0, end: FlushEnd::Closed });
    assert_eq!(ring.len(), 0);
}

#[test]
fn flush_with_nothing_buffered_sends_nothing() {
    let (sender, mut receiver) = channel::<Vec<i16>>(4);
    let mut ring = CircularSampleBuffer::new(100);

    let report = enqueue_and_flush(&sender, &mut ring, &[]);

    assert_eq!(report, FlushReport { delivered: 0, end: FlushEnd::Drained });
    assert!(receiver.try_recv().is_err());
}

#[test]
fn flush_drops_the_oldest_samples_when_the_buffer_overflows() {
    let (sender, mut receiver) = channel::<Vec<i16>>(1);
    let mut ring = CircularSampleBuffer::new(2000);

    let first = enqueue_and_flush(&sender, &mut ring, &ramp(0, 2000));
    assert_eq!(first, FlushReport { delivered: 1024, end: FlushEnd::Backpressure });
    assert_eq!(ring.len(), 976);

    let second = enqueue_and_flush(&sender, &mut ring, &ramp(2000, 1500));
    assert_eq!(second, FlushReport { delivered: 0, end: FlushEnd::Backpressure });
    assert_eq!(ring.len(), 2000);

    assert_eq!(receiver.try_recv().unwrap(), ramp(0, 1024));
    let third = enqueue_and_flush(&sender, &mut ring, &[]);
    assert_eq!(third, FlushReport { delivered: 1024, end: FlushEnd::Backpressure });
    assert_eq!(receiver.try_recv().unwrap(), ramp(1500, 1024));
}

#[test]
fn settle_acts_on_each_outcome() {
    let mut ring = CircularSampleBuffer::new(10);
    ring.push_samples(&[4, 5]);

    assert_eq!(ring.settle(SendOutcome::Sent), None);
    assert_eq!(ring.len(), 2);

    assert_eq!(ring.settle(SendOutcome::Full(vec![1, 2, 3])), Some(FlushEnd::Backpressure));
    assert_eq!(ring.pop_chunk(3), Some(vec![1, 2, 3]));
    assert_eq!(ring.len(), 2);

    assert_eq!(ring.settle(SendOutcome::Closed), Some(FlushEnd::Closed));
    assert_eq!(ring.len(), 0);
}

#[test]
fn flush_with_nothing_buffered_never_reports_a_closed_channel() {
    let (sender, receiver) = channel::<Vec<i16>>(4);
    drop(receiver);
    let mut ring = CircularSampleBuffer::new(100);

    let report = enqueue_and_flush(&sender, &mut ring, &[]);

    assert_eq!(report, FlushReport { delivered: 0, end: FlushEnd::Drained });
    assert_eq!(ring.len(), 0);
}

#[test]
fn flush_reports_what_a_channel_took_before_it_closed() {
    let (sender, mut receiver) = channel::<Vec<i16>>(1);
    let mut ring = CircularSampleBuffer::new(10_000);

    let first = enqueue_and_flush(&sender, &mut ring, &ramp(0, 2000));
    assert_eq!(first, FlushReport { delivered: 1024, end: FlushEnd::Backpressure });
    assert_eq!(receiver.try_recv().unwrap(), ramp(0, 1024));
    drop(receiver);

    let second = enqueue_and_flush(&sender, &mut ring, &[]);
    assert_eq!(second, FlushReport { delivered: 0, end: FlushEnd::Closed });
    assert_eq!(ring.len(), 0);
}

#[test]
fn settle_puts_back_no_more_than_fits() {
    let mut ring = CircularSampleBuffer::new(3);
    ring.push_samples(&[4, 5]);

    assert_eq!(ring.settle(SendOutcome::Full(vec![1, 2, 3])), Some(FlushEnd::Backpressure));
    assert_eq!(ring.len(), 3);
    assert_eq!(ring.pop_chunk(3), Some(vec![3, 4, 5]));
}

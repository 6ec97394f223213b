use smart_refresh::clock::Clock;
use smart_refresh::error::ShmError;
use smart_refresh::fps_monitor::FpsRingBuffer;
use smart_refresh::fps_monitor::FpsSample;
use smart_refresh::fps_monitor::MangoHudData;
use smart_refresh::fps_monitor::MangoHudReader;
use smart_refresh::fps_monitor::RING_BUFFER_CAPACITY;

#[test]
fn test_mangohud_data_size() {
    assert_eq!(MangoHudData::size(), 16);
}

#[test]
fn test_fps_ring_buffer_average() {
    let clock = Clock::start();
    let mut buffer = FpsRingBuffer::new();

    assert_eq!(buffer.average(), 0);

    buffer.push(FpsSample::new(60, 16666, &clock));
    buffer.push(FpsSample::new(30, 33333, &clock));
    buffer.push(FpsSample::new(90, 11111, &clock));

    assert_eq!(buffer.average(), 60_000);
}

#[test]
fn test_fps_ring_buffer_percentile() {
    let clock = Clock::start();
    let mut buffer = FpsRingBuffer::new();

    assert_eq!(buffer.percentile(990), 0);

    for i in 1u64..=100 {
        buffer.push(FpsSample::new(60, i * 100, &clock));
    }

    let p99: u64 = buffer.percentile(990);
    assert!(p99 >= 9800 && p99 <= 10000);
    assert_eq!(p99, 9900);
}

#[test]
fn test_fps_ring_buffer_capacity_enforcement() {
    let clock = Clock::start();
    let mut buffer = FpsRingBuffer::with_capacity(5);

    for i in 0u64..10 {
        buffer.push(FpsSample::new(i, i * 1000, &clock));
    }

    assert_eq!(buffer.len(), 5);

    let fps_values: Vec<u64> = buffer.iter().iter().map(|s| s.fps).collect();
    assert_eq!(fps_values, vec![5, 6, 7, 8, 9]);
}

#[test]
fn record_round_trips_through_its_bytes() {
    for (fps, frametime) in
        [(0u64, 0u64), (60, 16666), (u64::MAX, 1), (0x0102_0304_0506_0708, 0x1112_1314_1516_1718)]
    {
        let data = MangoHudData::new(fps, frametime);
        let bytes: Vec<u8> = data.to_bytes();
        assert_eq!(bytes.len(), 16);
        assert_eq!(MangoHudData::from_bytes(&bytes), Some(data));
    }
    let bytes: Vec<u8> = MangoHudData::new(0x0102_0304_0506_0708, 2).to_bytes();
    assert_eq!(bytes, vec![8, 7, 6, 5, 4, 3, 2, 1, 2, 0, 0, 0, 0, 0, 0, 0]);
    assert_eq!(MangoHudData::from_bytes(&bytes[..15]), None);
    assert_eq!(MangoHudData::from_bytes(&[0u8; 17]), None);
    assert_eq!(MangoHudData::default(), MangoHudData::new(0, 0));
}

#[test]
fn rolling_window_keeps_the_last_of_any_number_of_pushes() {
    let mut n: u64 = 0;
    while n <= 300 {
        let mut buffer = FpsRingBuffer::new();
        for i in 0..n {
            buffer.push(FpsSample::with_timestamp(i, i * 2, i));
            assert!(buffer.len() <= RING_BUFFER_CAPACITY);
        }
        let expected: u64 = if n < 120 { n } else { 120 };
        assert_eq!(buffer.len() as u64, expected);
        let held: Vec<FpsSample> = buffer.iter();
        for (k, sample) in held.iter().enumerate() {
            let i: u64 = n - expected + k as u64;
            assert_eq!(*sample, FpsSample::with_timestamp(i, i * 2, i));
        }
        n += 37;
    }
    assert_eq!(FpsRingBuffer::default().capacity(), 120);
}

#[test]
fn window_of_no_capacity_holds_one() {
    let mut buffer = FpsRingBuffer::with_capacity(0);
    buffer.push(FpsSample::with_timestamp(1, 1, 1));
    buffer.push(FpsSample::with_timestamp(2, 2, 2));
    assert_eq!(buffer.iter(), vec![FpsSample::with_timestamp(2, 2, 2)]);
    buffer.clear();
    assert!(buffer.is_empty());
}

#[test]
fn average_is_rounded_down_to_a_thousandth() {
    let mut buffer = FpsRingBuffer::with_capacity(3);
    buffer.push(FpsSample::with_timestamp(1, 0, 0));
    buffer.push(FpsSample::with_timestamp(1, 0, 0));
    buffer.push(FpsSample::with_timestamp(0, 0, 0));
    assert_eq!(buffer.average(), 666);
    let mut big = FpsRingBuffer::with_capacity(2);
    big.push(FpsSample::with_timestamp(u64::MAX, 0, 0));
    big.push(FpsSample::with_timestamp(u64::MAX, 0, 0));
    assert_eq!(big.average(), u64::MAX as u128 * 1000);
}

#[test]
fn percentile_picks_from_the_ordered_frame_times() {
    let mut buffer = FpsRingBuffer::new();
    for frametime in [50u64, 10, 40, 20, 30] {
        buffer.push(FpsSample::with_timestamp(60, frametime, 0));
    }
    assert_eq!(buffer.percentile(0), 10);
    assert_eq!(buffer.percentile(500), 30);
    assert_eq!(buffer.percentile(620), 30);
    assert_eq!(buffer.percentile(630), 40);
    assert_eq!(buffer.percentile(1000), 50);
    assert_eq!(buffer.percentile(5000), 50);
}

#[test]
fn samples_since_keeps_the_recent_ones() {
    let mut buffer = FpsRingBuffer::new();
    for t in [5u64, 10, 15, 20] {
        buffer.push(FpsSample::with_timestamp(t, 0, t));
    }
    let recent: Vec<u64> = buffer.samples_since(10).iter().map(|s| s.timestamp).collect();
    assert_eq!(recent, vec![10, 15, 20]);
    assert!(buffer.samples_since(21).is_empty());
    let clock = Clock::start();
    let mut fresh = FpsRingBuffer::new();
    fresh.push(FpsSample::new(1, 1, &clock));
    assert_eq!(fresh.samples_in_window(60_000, &clock).len(), 1);
}

#[test]
fn reader_polls_records_into_its_window() {
    let mut reader = MangoHudReader::new();
    assert_eq!(reader.get_smoothed_fps(), 0);
    let sample = reader.poll_at(&MangoHudData::new(60, 16_000).to_bytes(), 100).unwrap();
    assert_eq!(sample, FpsSample::with_timestamp(60, 16_000, 100));
    reader.poll_at(&MangoHudData::new(31, 32_000).to_bytes(), 200).unwrap();
    assert_eq!(reader.get_smoothed_fps(), 45_500);
    assert_eq!(reader.get_p99_frametime(), 32_000);
    assert_eq!(reader.get_ring_buffer().len(), 2);
    let refused = reader.poll_at(&[1, 2, 3], 300);
    assert!(matches!(refused, Err(ShmError::InvalidData(_))));
    assert_eq!(reader.get_ring_buffer().len(), 2);
    let clock = Clock::start();
    let polled = reader.poll(&MangoHudData::new(0, 5).to_bytes(), &clock).unwrap();
    assert_eq!((polled.fps, polled.frametime), (0, 5));
    assert_eq!(reader.get_smoothed_fps(), 30_333);
    reader.poll_at(&MangoHudData::new(u64::MAX, 5).to_bytes(), 400).unwrap();
    assert_eq!(reader.get_smoothed_fps(), u32::MAX);
}

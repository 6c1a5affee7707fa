use granular::buffers::{stereo_buffer, Buffer, N_SAMPLES_PER_CHUNK};
use granular::stream::StereoStream;

fn ramp(offset: i32) -> Buffer<i32> {
    let mut b = Buffer::with_value(0);
    for i in 0..N_SAMPLES_PER_CHUNK {
        b.set_sample(i, offset + i as i32);
    }
    b
}

#[test]
fn buffer_with_value_and_size() {
    let b = Buffer::with_value(7u8);
    assert_eq!(Buffer::<u8>::size(), 32);
    assert!(b.get().iter().all(|v| *v == 7));
}

#[test]
fn buffer_clone_and_fill() {
    let mut b = ramp(100);
    let c = b.clone_buffer();
    assert_eq!(c.get(), b.get());
    b.fill(-1);
    assert!(b.get().iter().all(|v| *v == -1));
    assert_eq!(c.sample(31), 131);
}

#[test]
fn buffer_get_mut_writes_through() {
    let mut b = Buffer::with_value(0i32);
    b.get_mut()[5] = 9;
    assert_eq!(b.sample(5), 9);
    assert_eq!(b.sample(4), 0);
}

#[test]
fn stereo_buffer_is_filled() {
    let pair = stereo_buffer(3i16);
    assert!(pair[0].get().iter().all(|v| *v == 3));
    assert!(pair[1].get().iter().all(|v| *v == 3));
}

#[test]
fn new_stream_needs_a_chunk() {
    let mut s = StereoStream::new(0i32);
    assert!(s.needs_chunk());
    assert_eq!(s.next_frame(), None);
}

#[test]
fn chunk_plays_in_order_then_needs_the_next() {
    let mut s = StereoStream::new(0i32);
    s.load_chunk(&[ramp(0), ramp(1000)]);
    for i in 0..N_SAMPLES_PER_CHUNK as i32 {
        assert!(!s.needs_chunk());
        assert_eq!(s.next_frame(), Some([i, 1000 + i]));
    }
    assert!(s.needs_chunk());
    assert_eq!(s.next_frame(), None);
    s.load_chunk(&[ramp(50), ramp(60)]);
    assert_eq!(s.next_frame(), Some([50, 60]));
}

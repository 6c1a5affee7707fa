use granular::sample_file::{first_channel, rms_window, sample_file_opened, GranularError};

#[test]
fn keeps_the_first_of_each_frame() {
    let interleaved = vec![1, -1, 2, -2, 3, -3];
    assert_eq!(first_channel(&interleaved, 2), vec![1, 2, 3]);
    assert_eq!(first_channel(&interleaved, 1), interleaved);
    assert_eq!(first_channel(&interleaved, 3), vec![1, -2]);
}

#[test]
fn short_last_frame_still_gives_its_first_sample() {
    assert_eq!(first_channel(&vec![10, 20, 30, 40, 50], 2), vec![10, 30, 50]);
    assert_eq!(first_channel(&vec![10, 20], 4), vec![10]);
    assert_eq!(first_channel(&vec![], 2), Vec::<i32>::new());
}

#[test]
fn overview_window() {
    assert_eq!(rms_window(0), None);
    assert_eq!(rms_window(1199), None);
    assert_eq!(rms_window(1200), Some(2));
    assert_eq!(rms_window(44100), Some(73));
}

#[test]
fn unopened_file_is_an_error_naming_it() {
    assert_eq!(sample_file_opened("a.wav".to_string(), Some(5)).ok(), Some(5));
    match sample_file_opened::<u8>("missing.wav".to_string(), None) {
        Err(GranularError::FailedToLoadSampleFile(f)) => assert_eq!(f, "missing.wav"),
        _ => panic!("expected an error"),
    }
}

use sample_queue::queue2::{queue2, MusicPlayerCommand};
use sample_queue::source::SampleSource;

#[test]
fn immediate_end() {
    let (_, mut rx) = queue2(false);
    assert_eq!(rx.next(), None);
}

#[test]
fn keep_alive() {
    let (tx, mut rx) = queue2(true);
    tx.append(SampleSource::new(1, 48000, vec![10i16, -10, 10, -10]));

    assert_eq!(rx.next(), Some(10));
    assert_eq!(rx.next(), Some(-10));
    assert_eq!(rx.next(), Some(10));
    assert_eq!(rx.next(), Some(-10));

    for _ in 0..100000 {
        assert_eq!(rx.next(), Some(0));
    }
}

#[test]
fn fifo_switches_properties_then_ends() {
    let (tx, mut rx) = queue2(false);
    tx.append(SampleSource::new(1, 48000, vec![10i16, -10, 10, -10]));
    tx.append(SampleSource::new(2, 96000, vec![5i16, 5, 5, 5]));

    assert_eq!(rx.next(), Some(10));
    assert_eq!(rx.channels(), 1);
    assert_eq!(rx.sample_rate(), 48000);
    assert_eq!(rx.next(), Some(-10));
    assert_eq!(rx.next(), Some(10));
    assert_eq!(rx.next(), Some(-10));
    assert_eq!(rx.next(), Some(5));
    assert_eq!(rx.channels(), 2);
    assert_eq!(rx.sample_rate(), 96000);
    assert_eq!(rx.next(), Some(5));
    assert_eq!(rx.next(), Some(5));
    assert_eq!(rx.next(), Some(5));
    assert_eq!(rx.next(), None);
}

#[test]
fn keep_alive_empty_queue_silence() {
    let (_, mut rx) = queue2(true);
    for _ in 0..1000 {
        assert_eq!(rx.next(), Some(0));
    }
}

#[test]
fn pause_freezes_then_play_resumes() {
    let (tx, mut rx) = queue2(false);
    tx.append(SampleSource::new(1, 48000, vec![1i16, 2, 3]));
    assert_eq!(rx.next(), Some(1));
    tx.pause();
    assert_eq!(rx.next(), Some(0));
    assert_eq!(rx.next(), Some(0));
    assert_eq!(rx.next(), Some(0));
    tx.play();
    assert_eq!(rx.next(), Some(2));
    assert_eq!(rx.next(), Some(3));
    assert_eq!(rx.next(), None);
}

#[test]
fn stop_with_keep_alive_goes_silent() {
    let (tx, mut rx) = queue2(true);
    tx.append(SampleSource::new(1, 48000, vec![1i16, 2, 3, 4]));
    tx.append(SampleSource::new(1, 48000, vec![5i16, 6]));
    assert_eq!(rx.next(), Some(1));
    assert_eq!(rx.next(), Some(2));
    tx.stop();
    for _ in 0..2000 {
        assert_eq!(rx.next(), Some(0));
    }
}

#[test]
fn stop_without_keep_alive_ends() {
    let (tx, mut rx) = queue2(false);
    tx.append(SampleSource::new(1, 48000, vec![1i16, 2, 3, 4]));
    tx.append(SampleSource::new(1, 48000, vec![5i16, 6]));
    assert_eq!(rx.next(), Some(1));
    assert_eq!(rx.next(), Some(2));
    tx.stop();
    assert_eq!(rx.next(), None);
}

#[test]
fn next_track_skips_remainder() {
    let (tx, mut rx) = queue2(false);
    tx.append(SampleSource::new(1, 48000, vec![1i16, 2, 3, 4]));
    tx.append(SampleSource::new(2, 96000, vec![9i16, 9]));
    assert_eq!(rx.next(), Some(1));
    assert_eq!(rx.next(), Some(2));
    tx.next();
    assert_eq!(rx.next(), Some(9));
    assert_eq!(rx.next(), Some(9));
    assert_eq!(rx.next(), None);
}

#[test]
fn next_track_on_empty_ends_stream() {
    let (tx, mut rx) = queue2(false);
    tx.append(SampleSource::new(1, 48000, vec![1i16, 2]));
    assert_eq!(rx.next(), Some(1));
    tx.next();
    assert_eq!(rx.next(), None);
}

#[test]
fn source_added_during_keep_alive_plays_after_silence() {
    let (tx, mut rx) = queue2(true);
    assert_eq!(rx.next(), Some(0));
    tx.append(SampleSource::new(1, 48000, vec![10i16]));
    let mut got = None;
    for _ in 0..1000 {
        let s = rx.next();
        if s != Some(0) {
            got = s;
            break;
        }
    }
    assert_eq!(got, Some(10));
}

#[test]
fn frame_len_reports_source_frame() {
    let (tx, mut rx) = queue2(false);
    tx.append(SampleSource::with_frame_len(1, 48000, vec![1i16; 600], Some(100)));
    assert_eq!(rx.next(), Some(1));
    assert_eq!(rx.current_frame_len(), Some(100));
}

#[test]
fn frame_len_zero_is_ignored() {
    let (tx, mut rx) = queue2(false);
    tx.append(SampleSource::with_frame_len(1, 48000, vec![1i16, 2], Some(0)));
    assert_eq!(rx.next(), Some(1));
    assert_eq!(rx.current_frame_len(), Some(1));
}

#[test]
fn frame_len_falls_back_to_remaining() {
    let (tx, mut rx) = queue2(false);
    tx.append(SampleSource::new(1, 48000, vec![1i16, 2, 3, 4]));
    assert_eq!(rx.next(), Some(1));
    assert_eq!(rx.current_frame_len(), Some(3));
}

#[test]
fn frame_len_is_capped_by_threshold() {
    let (tx, mut rx) = queue2(false);
    tx.append(SampleSource::new(1, 48000, vec![7i16; 1000]));
    assert_eq!(rx.next(), Some(7));
    assert_eq!(rx.current_frame_len(), Some(512));
}

#[test]
fn reports_on_fresh_queue() {
    let (_, rx) = queue2(false);
    assert_eq!(rx.channels(), 1);
    assert_eq!(rx.sample_rate(), 48000);
    assert_eq!(rx.total_duration(), None);
    assert_eq!(rx.size_hint(), (0, None));
    assert_eq!(rx.current_frame_len(), Some(512));
}

#[test]
fn step_applies_command_then_source() {
    let (_, mut rx) = queue2(false);
    let src = SampleSource::new(1, 44100, vec![3i16]);
    assert_eq!(rx.step(Some(MusicPlayerCommand::Pause), Some(src)), Some(0));
    assert_eq!(rx.step(None, None), Some(0));
    assert_eq!(rx.step(Some(MusicPlayerCommand::Play), None), Some(3));
    assert_eq!(rx.step(None, None), None);
}

use sample_queue::source::SampleSource;

#[test]
fn sample_source_reports_and_drains() {
    let mut s = SampleSource::new(2, 22050, vec![4i16, -4]);
    assert_eq!(s.channels(), 2);
    assert_eq!(s.sample_rate(), 22050);
    assert_eq!(s.frame_len(), None);
    assert_eq!(s.remaining_len(), 2);
    assert_eq!(s.next(), Some(4));
    assert_eq!(s.remaining_len(), 1);
    assert_eq!(s.next(), Some(-4));
    assert_eq!(s.next(), None);
    assert_eq!(s.next(), None);
}

#[test]
fn source_with_frame_len_reports_it() {
    let s = SampleSource::with_frame_len(1, 8000, vec![1i16], Some(7));
    assert_eq!(s.frame_len(), Some(7));
}

#[test]
fn silence_source_is_zero() {
    let mut s = SampleSource::silence(1, 44100, 3);
    assert_eq!(s.channels(), 1);
    assert_eq!(s.sample_rate(), 44100);
    assert_eq!(s.remaining_len(), 3);
    assert_eq!(s.next(), Some(0));
    assert_eq!(s.next(), Some(0));
    assert_eq!(s.next(), Some(0));
    assert_eq!(s.next(), None);
}

#[test]
fn empty_source_is_empty() {
    let mut s = SampleSource::empty();
    assert_eq!(s.channels(), 1);
    assert_eq!(s.sample_rate(), 48000);
    assert_eq!(s.remaining_len(), 0);
    assert_eq!(s.next(), None);
}

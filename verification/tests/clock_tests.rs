use microboost::clock::{file_name_for, timestamped_file_name, LocalTime};

#[test]
fn file_name_formats_and_pads_every_field() {
    let t = LocalTime { year: 2024, month: 1, day: 31, hour: 23, minute: 5, second: 9 };
    let name = file_name_for(&t);
    assert_eq!(name, b"test_20240131_230509.wav".to_vec());
}

#[test]
fn file_name_is_sortable_by_time() {
    let earlier = LocalTime { year: 2024, month: 12, day: 31, hour: 23, minute: 59, second: 59 };
    let later = LocalTime { year: 2025, month: 1, day: 1, hour: 0, minute: 0, second: 0 };
    assert!(file_name_for(&earlier) < file_name_for(&later));
}

#[test]
fn timestamped_name_has_the_fixed_shape() {
    let name = timestamped_file_name();
    assert_eq!(name.len(), 24);
    assert_eq!(&name[0..5], b"test_");
    assert_eq!(name[13], b'_');
    assert_eq!(&name[20..24], b".wav");
    for i in (5..13).chain(14..20) {
        assert!(name[i].is_ascii_digit());
    }
}

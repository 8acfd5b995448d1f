use embedded_io_async::SeekFrom;
use hd44780::nonblocking::TrackPosition;

#[test]
fn tracking_starts_at_zero() {
    assert_eq!(TrackPosition::<80>::new().position(), 0);
}

#[test]
fn write_moves_the_position_by_the_count_modulo_size() {
    for len in [0usize, 1, 2, 79, 80, 81, 100, 160, 1000, usize::MAX] {
        let mut t = TrackPosition::<80>::new();
        assert_eq!(t.write::<()>(Ok(len)), Ok(len));
        assert_eq!(t.position() as usize, len % 80);
    }
}

#[test]
fn writes_add_up_and_wrap() {
    let mut t = TrackPosition::<80>::new();
    assert_eq!(t.write::<()>(Ok(100)), Ok(100));
    assert_eq!(t.position(), 20);
    assert_eq!(t.write::<()>(Ok(70)), Ok(70));
    assert_eq!(t.position(), 10);
}

#[test]
fn write_in_a_large_window_does_not_overflow_the_byte() {
    let mut t = TrackPosition::<200>::new();
    assert_eq!(t.write::<()>(Ok(150)), Ok(150));
    assert_eq!(t.position(), 150);
    assert_eq!(t.write::<()>(Ok(120)), Ok(120));
    assert_eq!(t.position(), 70);
    let mut t = TrackPosition::<255>::new();
    assert_eq!(t.write::<()>(Ok(254)), Ok(254));
    assert_eq!(t.write::<()>(Ok(254)), Ok(254));
    assert_eq!(t.position(), 253);
}

#[test]
fn failed_write_leaves_the_position() {
    let mut t = TrackPosition::<80>::new();
    assert_eq!(t.write::<u8>(Ok(5)), Ok(5));
    assert_eq!(t.write(Err(7u8)), Err(7u8));
    assert_eq!(t.position(), 5);
}

#[test]
fn relative_seek_by_zero_asks_for_the_tracked_position() {
    for len in [0usize, 3, 80, 95] {
        let mut t = TrackPosition::<80>::new();
        assert_eq!(t.write::<()>(Ok(len)), Ok(len));
        let before = t.position();
        assert_eq!(t.seek(SeekFrom::Current(0)), SeekFrom::Start(before as u64));
        assert_eq!(t.position(), before);
        assert_eq!(t.adopt::<()>(SeekFrom::Current(0), Ok(before as u64)), Ok(before as u64));
        assert_eq!(t.position(), before);
    }
}

#[test]
fn relative_seek_backwards_inside_the_window() {
    let mut t = TrackPosition::<80>::new();
    assert_eq!(t.write::<()>(Ok(10)), Ok(10));
    assert_eq!(t.seek(SeekFrom::Current(-3)), SeekFrom::Start(7));
    assert_eq!(t.position(), 7);
    assert_eq!(t.seek(SeekFrom::Current(-7)), SeekFrom::Start(0));
    assert_eq!(t.position(), 0);
}

#[test]
fn relative_seek_backwards_wraps_below_zero() {
    let mut t = TrackPosition::<80>::new();
    assert_eq!(t.write::<()>(Ok(10)), Ok(10));
    assert_eq!(t.seek(SeekFrom::Current(-15)), SeekFrom::Start(75));
    assert_eq!(t.position(), 75);
    let mut t = TrackPosition::<80>::new();
    assert_eq!(t.seek(SeekFrom::Current(-80)), SeekFrom::Start(0));
    assert_eq!(t.seek(SeekFrom::Current(-1)), SeekFrom::Start(79));
}

#[test]
fn relative_seek_by_more_than_a_window_wraps_more_than_once() {
    let mut t = TrackPosition::<80>::new();
    assert_eq!(t.seek(SeekFrom::Current(-200)), SeekFrom::Start(40));
    assert_eq!(t.seek(SeekFrom::Current(200)), SeekFrom::Start(0));
    assert_eq!(t.seek(SeekFrom::Current(i64::MIN)), SeekFrom::Start(32));
    let mut t = TrackPosition::<80>::new();
    assert_eq!(t.seek(SeekFrom::Current(i64::MAX)), SeekFrom::Start(47));
}

#[test]
fn relative_seek_forwards() {
    let mut t = TrackPosition::<16>::new();
    assert_eq!(t.seek(SeekFrom::Current(5)), SeekFrom::Start(5));
    assert_eq!(t.seek(SeekFrom::Current(12)), SeekFrom::Start(1));
    let mut t = TrackPosition::<255>::new();
    assert_eq!(t.seek(SeekFrom::Current(254)), SeekFrom::Start(254));
    assert_eq!(t.seek(SeekFrom::Current(254)), SeekFrom::Start(253));
}

#[test]
fn absolute_seek_is_handed_on_and_its_reply_adopted() {
    let mut t = TrackPosition::<80>::new();
    assert_eq!(t.write::<()>(Ok(9)), Ok(9));
    assert_eq!(t.seek(SeekFrom::Start(40)), SeekFrom::Start(40));
    assert_eq!(t.position(), 9);
    assert_eq!(t.adopt::<()>(SeekFrom::Start(40), Ok(40)), Ok(40));
    assert_eq!(t.position(), 40);
    assert_eq!(t.seek(SeekFrom::End(-1)), SeekFrom::End(-1));
    assert_eq!(t.adopt::<()>(SeekFrom::End(-1), Ok(79)), Ok(79));
    assert_eq!(t.position(), 79);
}

#[test]
fn adopted_position_is_the_low_byte_of_the_reply() {
    let mut t = TrackPosition::<80>::new();
    assert_eq!(t.adopt::<()>(SeekFrom::End(0), Ok(80)), Ok(80));
    assert_eq!(t.position(), 80);
    assert_eq!(t.adopt::<()>(SeekFrom::Start(0), Ok(0x1_23)), Ok(0x1_23));
    assert_eq!(t.position(), 0x23);
}

#[test]
fn failed_absolute_seek_leaves_the_position() {
    let mut t = TrackPosition::<80>::new();
    assert_eq!(t.write::<u8>(Ok(9)), Ok(9));
    assert_eq!(t.adopt(SeekFrom::Start(40), Err(1u8)), Err(1u8));
    assert_eq!(t.position(), 9);
}

#[test]
fn write_after_an_adopted_position_outside_the_window() {
    let mut t = TrackPosition::<80>::new();
    assert_eq!(t.adopt::<()>(SeekFrom::End(79), Ok(159)), Ok(159));
    assert_eq!(t.write::<()>(Ok(79)), Ok(79));
    assert_eq!(t.position(), 78);
}

use embedded_hal::digital::v2::PinState;
use hd44780::nonblocking::Lcd;
use hd44780::playback::{Playback, Turn};
use hd44780::{EntryMode, HalfWidthBus, LcdPinConfiguration, Lines, Pin, Step};

fn three() -> Vec<Step> {
    vec![
        Step::Drive { pin: Pin::En, state: PinState::High },
        Step::Drive { pin: Pin::En, state: PinState::Low },
        Step::DelayUs { us: 50 },
    ]
}

#[test]
fn playback_hands_out_every_step_in_order() {
    let mut p = Playback::new(three());
    for step in three() {
        assert_eq!(p.resume::<u8>(Ok(())), Turn::Perform(step));
    }
    assert_eq!(p.resume::<u8>(Ok(())), Turn::Finished(Ok(())));
    assert_eq!(p.resume::<u8>(Ok(())), Turn::Finished(Ok(())));
}

#[test]
fn playback_of_nothing_is_over_at_once() {
    let mut p = Playback::new(Vec::new());
    assert_eq!(p.resume::<u8>(Ok(())), Turn::Finished(Ok(())));
}

#[test]
fn playback_stops_at_the_first_error() {
    let mut p = Playback::new(three());
    assert_eq!(p.resume::<u8>(Ok(())), Turn::Perform(three()[0]));
    assert_eq!(p.resume(Err(3u8)), Turn::Finished(Err(3u8)));
    assert_eq!(p.resume::<u8>(Ok(())), Turn::Finished(Ok(())));
}

#[test]
fn playback_fails_before_the_first_step_if_told_so() {
    let mut p = Playback::new(three());
    assert_eq!(p.resume(Err("line")), Turn::Finished(Err("line")));
}

#[test]
fn playing_the_initialization_to_the_end() {
    let mut steps = Vec::new();
    let _lcd = Lcd::new(
        LcdPinConfiguration { bus: HalfWidthBus },
        Lines::FourLines,
        EntryMode::default(),
        &mut steps,
    );
    let mut p = Playback::new(steps.clone());
    let mut played = Vec::new();
    loop {
        match p.resume::<()>(Ok(())) {
            Turn::Perform(step) => played.push(step),
            Turn::Finished(r) => {
                assert_eq!(r, Ok(()));
                break;
            }
        }
    }
    assert_eq!(played, steps);
}

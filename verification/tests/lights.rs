use vehicle_signals::lights::{FrontLeds, Leds, RearLeds, WordQueue};

#[test]
fn front_word_packs_header_and_channels() {
    let leds = FrontLeds { yellow: 1, low_beam: 2, high_beam: 3 };
    assert_eq!(leds.word(), 0xFF030201);
    // Repeated calls yield the same word.
    assert_eq!(leds.word(), leds.word());
}

#[test]
fn rear_word_packs_header_and_channels() {
    let leds = RearLeds { yellow: 7, white: 8, red: 9 };
    assert_eq!(leds.word(), 0xFF090807);
    assert_eq!(leds.word(), leds.word());
}

#[test]
fn word_extremes() {
    let dark = FrontLeds { yellow: 0, low_beam: 0, high_beam: 0 };
    assert_eq!(dark.word(), 0xFF000000);
    let bright = FrontLeds { yellow: 255, low_beam: 255, high_beam: 255 };
    assert_eq!(bright.word(), 0xFFFFFFFF);
    let red_only = RearLeds { yellow: 0, white: 0, red: 255 };
    assert_eq!(red_only.word(), 0xFFFF0000);
}

fn sample_leds() -> Leds {
    Leds {
        front_right: FrontLeds { yellow: 0, low_beam: 10, high_beam: 20 },
        front_left: FrontLeds { yellow: 42, low_beam: 0, high_beam: 0 },
        rear_right: RearLeds { yellow: 0, white: 30, red: 40 },
        rear_left: RearLeds { yellow: 42, white: 0, red: 0 },
    }
}

#[test]
fn frame_write_enqueues_seven_words_in_order() {
    let leds = sample_leds();
    let mut queue = WordQueue::new();
    leds.write(&mut queue);
    assert_eq!(queue.len(), 7);
    assert_eq!(queue.get(0), leds.front_left.word());
    assert_eq!(queue.get(1), leds.front_right.word());
    assert_eq!(queue.get(2), leds.rear_right.word());
    assert_eq!(queue.get(3), leds.rear_left.word());
    assert_eq!(queue.get(4), 0xFF000000);
    assert_eq!(queue.get(5), 0);
    assert_eq!(queue.get(6), 42);
}

#[test]
fn two_frames_never_interleave() {
    let first = sample_leds();
    let second = Leds {
        front_right: FrontLeds { yellow: 1, low_beam: 2, high_beam: 3 },
        front_left: FrontLeds { yellow: 4, low_beam: 5, high_beam: 6 },
        rear_right: RearLeds { yellow: 7, white: 8, red: 9 },
        rear_left: RearLeds { yellow: 10, white: 11, red: 12 },
    };
    let mut queue = WordQueue::new();
    first.write(&mut queue);
    second.write(&mut queue);
    assert_eq!(queue.len(), 14);
    // The first frame's words sit untouched ahead of the second frame's.
    assert_eq!(queue.get(0), first.front_left.word());
    assert_eq!(queue.get(6), 42);
    assert_eq!(queue.get(7), second.front_left.word());
    assert_eq!(queue.get(8), second.front_right.word());
    assert_eq!(queue.get(9), second.rear_right.word());
    assert_eq!(queue.get(10), second.rear_left.word());
    assert_eq!(queue.get(13), 42);
}

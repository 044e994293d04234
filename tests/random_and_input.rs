use eadk::geometry::screen_rect;
use eadk::input::Event;
use eadk::random::{
    bytes_from_words, draw_words, fill_bytes, le_value, point_from_words, random, rect_from_words,
    EntropySource, Random,
};
use eadk::report::{failure_report, FailureMode};
use eadk::{Color, Key, KeyboardState, Point, Rect, SCREEN_HEIGHT, SCREEN_WIDTH};

struct Words {
    words: Vec<u32>,
    next: usize,
}

impl EntropySource for Words {
    fn next_word(&mut self) -> u32 {
        let w = self.words[self.next % self.words.len()];
        self.next += 1;
        w
    }
}

struct Lcg(u64);

impl EntropySource for Lcg {
    fn next_word(&mut self) -> u32 {
        self.0 = self.0.wrapping_mul(6364136223846793005).wrapping_add(1442695040888963407);
        (self.0 >> 32) as u32
    }
}

#[test]
fn fill_bytes_lays_out_words_low_byte_first() {
    let mut src = Words { words: vec![0x04030201, 0x08070605], next: 0 };
    assert_eq!(fill_bytes(&mut src, 6), vec![1, 2, 3, 4, 5, 6]);
    assert_eq!(src.next, 2);
}

#[test]
fn fill_bytes_of_zero_draws_nothing() {
    let mut src = Words { words: vec![1], next: 0 };
    assert!(fill_bytes(&mut src, 0).is_empty());
    assert_eq!(src.next, 0);
}

#[test]
fn integers_take_words_low_first() {
    let mut src = Words { words: vec![1, 2, 3, 4], next: 0 };
    assert_eq!(random::<u64, _>(&mut src), 1 | (2u64 << 32));
    let mut src = Words { words: vec![0xdeadbeef], next: 0 };
    assert_eq!(u8::random(&mut src), 0xef);
    assert_eq!(u16::random(&mut src), 0xbeef);
    assert_eq!(i32::random(&mut src), 0xdeadbeefu32 as i32);
    let c: Color = random(&mut src);
    assert_eq!(c.rgb565, 0xbeef);
}

#[test]
fn point_from_words_reduces() {
    assert_eq!(point_from_words(321, 241), Point { x: 1, y: 1 });
    assert_eq!(point_from_words(u32::MAX, u32::MAX), Point { x: 255, y: 15 });
}

#[test]
fn rect_height_uses_width_modulus() {
    let r = rect_from_words(0, 0, 0, 300);
    assert_eq!(r, Rect { x: 0, y: 0, w: 0, h: 300 });
    assert!(r.h >= SCREEN_HEIGHT);
}

#[test]
fn random_points_lie_on_screen() {
    let mut src = Lcg(7);
    for _ in 0..1000 {
        let p: Point = random(&mut src);
        assert!(p.x < SCREEN_WIDTH && p.y < SCREEN_HEIGHT);
    }
}

#[test]
fn random_rects_respect_bounds() {
    let mut src = Lcg(11);
    for _ in 0..1000 {
        let r: Rect = random(&mut src);
        assert!(r.x < SCREEN_WIDTH && r.y < SCREEN_HEIGHT && r.w < SCREEN_WIDTH);
        assert!(r.h < SCREEN_WIDTH);
    }
}

#[test]
fn hundred_uniform_blocks() {
    let mut src = Lcg(3);
    let mut below_screen = 0;
    for _ in 0..100 {
        let _c: Color = random(&mut src);
        let r: Rect = random(&mut src);
        assert!(r.x < SCREEN_WIDTH && r.y < SCREEN_HEIGHT && r.w < SCREEN_WIDTH);
        // The height is bounded by the screen width, not its height: such a
        // block may reach below the screen.
        assert!(r.h < SCREEN_WIDTH);
        if r.y as u32 + r.h as u32 > SCREEN_HEIGHT as u32 {
            below_screen += 1;
        }
    }
    assert!(below_screen > 0);
}

#[test]
fn screen_rect_is_whole_screen() {
    assert_eq!(screen_rect(), Rect { x: 0, y: 0, w: 320, h: 240 });
}

#[test]
fn key_down_reads_snapshot_bits() {
    let s = KeyboardState::from_raw((1u64 << 4) | (1u64 << 52) | 1);
    assert!(s.key_down(Key::OK));
    assert!(s.key_down(Key::Exe));
    assert!(s.key_down(Key::Left));
    assert!(!s.key_down(Key::Up));
    assert!(!s.key_down(Key::Zero));
    assert_eq!(Key::OnOff.code(), 8);
    assert_eq!(Key::Zero.code(), 48);
}

#[test]
fn key_down_is_stable() {
    let s = KeyboardState::from_raw(0x0010_0000_0000_0105);
    let copy = s;
    for k in [Key::Left, Key::Down, Key::Home, Key::OnOff, Key::Exe, Key::Seven] {
        assert_eq!(s.key_down(k), s.key_down(k));
        assert_eq!(s.key_down(k), copy.key_down(k));
    }
}

#[test]
fn digit_events() {
    let digits = [
        Event::Zero,
        Event::One,
        Event::Two,
        Event::Three,
        Event::Four,
        Event::Five,
        Event::Six,
        Event::Seven,
        Event::Eight,
        Event::Nine,
    ];
    for (i, e) in digits.iter().enumerate() {
        assert!(e.is_digit());
        assert_eq!(e.to_digit(), Some(i as u8));
    }
    for e in [Event::OK, Event::LowerA, Event::UpperZ, Event::Plus, Event::Exe] {
        assert!(!e.is_digit());
        assert_eq!(e.to_digit(), None);
    }
}

#[test]
fn is_digit_agrees_with_to_digit_on_every_event() {
    let mut count = 0;
    for code in 0u16..=300 {
        if let Some(e) = Event::from_code(code) {
            count += 1;
            assert_eq!(e.code(), code);
            assert_eq!(e.is_digit(), e.to_digit().is_some());
        }
    }
    assert_eq!(count, 124);
}

#[test]
fn event_codes_keep_gaps() {
    assert_eq!(Event::from_code(43), Some(Event::Two));
    assert_eq!(Event::from_code(6), None);
    assert_eq!(Event::from_code(143), None);
    assert_eq!(Event::from_code(208), None);
    assert_eq!(Event::UpperZ.code(), 207);
    assert_eq!(Event::Colon.code(), 122);
}

#[test]
fn silent_failure_draws_nothing() {
    assert!(failure_report(FailureMode::Silent, Some("a.rs"), Some(3), Some("boom")).is_empty());
}

#[test]
fn diagnostic_failure_draws_location_message_and_line() {
    let d = failure_report(FailureMode::Diagnostic, Some("src/a.rs"), Some(1207), Some("boom"));
    assert_eq!(d.len(), 3);
    assert_eq!(d[0].text, b"src/a.rs\0".to_vec());
    assert_eq!(d[0].point, Point { x: 0, y: 40 });
    assert!(d[0].large_format);
    assert_eq!(d[0].text_color, Color::from_rgb888(255, 0, 0));
    assert_eq!(d[0].background_color, Color::from_rgb888(255, 255, 255));
    assert_eq!(d[1].text, b"boom\0".to_vec());
    assert_eq!(d[1].point, Point { x: 0, y: 0 });
    assert!(d[1].large_format);
    assert_eq!(d[2].text, b"\n\nline 1207.\0".to_vec());
    assert_eq!(d[2].point, Point { x: 0, y: 30 });
    assert!(!d[2].large_format);
    assert_eq!(d[2].text_color, Color::from_rgb888(255, 0, 0));
    assert_eq!(d[2].background_color, Color::from_rgb888(255, 255, 255));
}

#[test]
fn diagnostic_failure_falls_back_when_parts_missing() {
    let d = failure_report(FailureMode::Diagnostic, None, None, None);
    assert_eq!(d[0].text, b"unknown location\0".to_vec());
    assert_eq!(d[1].text, b"no message\0".to_vec());
    assert_eq!(d[2].text, b"\n\nline ?.\0".to_vec());
    let d = failure_report(FailureMode::Diagnostic, None, Some(0), None);
    assert_eq!(d[2].text, b"\n\nline 0.\0".to_vec());
    let d = failure_report(FailureMode::Diagnostic, None, Some(u32::MAX), None);
    assert_eq!(d[2].text, b"\n\nline 4294967295.\0".to_vec());
}

#[test]
fn bytes_from_words_takes_low_bytes_first() {
    assert_eq!(bytes_from_words(&vec![0x44332211, 0x88776655], 5), vec![0x11, 0x22, 0x33, 0x44, 0x55]);
    assert!(bytes_from_words(&vec![], 0).is_empty());
}

#[test]
fn le_value_reads_low_byte_first() {
    assert_eq!(le_value(&vec![0x34, 0x12]), 0x1234);
    assert_eq!(le_value(&vec![]), 0);
    assert_eq!(le_value(&vec![0xff; 16]), u128::MAX);
}

#[test]
fn draw_words_draws_exactly_count() {
    let mut src = Words { words: vec![5, 6, 7], next: 0 };
    assert_eq!(draw_words(&mut src, 4), vec![5, 6, 7, 5]);
    assert_eq!(src.next, 4);
}

#[test]
fn from_words_of_each_type() {
    assert_eq!(u32::from_words(&vec![0xdeadbeef]), 0xdeadbeef);
    assert_eq!(u8::from_words(&vec![0xdeadbeef]), 0xef);
    assert_eq!(u16::from_words(&vec![0xdeadbeef]), 0xbeef);
    assert_eq!(Color::from_words(&vec![0xdeadbeef]).rgb565, 0xbeef);
    assert_eq!(u64::from_words(&vec![0x11223344, 0x55667788]), 0x5566778811223344);
    assert_eq!(u128::from_words(&vec![1, 2, 3, 4]), 1 | (2u128 << 32) | (3u128 << 64) | (4u128 << 96));
    assert_eq!(i16::from_words(&vec![0x0000ffff]), -1);
    assert_eq!(i8::from_words(&vec![0x80]), -128);
    assert_eq!(i32::from_words(&vec![0xffffffff]), -1);
    assert_eq!(i64::from_words(&vec![0xffffffff, 0x7fffffff]), i64::MAX);
    assert_eq!(i128::from_words(&vec![0, 0, 0, 0x80000000]), i128::MIN);
    assert_eq!(Point::from_words(&vec![330, 250]), Point { x: 10, y: 10 });
    assert_eq!(Rect::from_words(&vec![330, 250, 640, 639]), Rect { x: 10, y: 10, w: 0, h: 319 });
}

#[test]
fn random_draws_the_words_it_needs() {
    let mut src = Words { words: vec![0xdeadbeef], next: 0 };
    assert_eq!(random::<u32, _>(&mut src), 0xdeadbeef);
    assert_eq!(src.next, 1);
    let mut src = Words { words: vec![0x11223344, 0x55667788], next: 0 };
    assert_eq!(random::<u64, _>(&mut src), 0x5566778811223344);
    assert_eq!(src.next, 2);
    let mut src = Words { words: vec![0x0000ffff], next: 0 };
    assert_eq!(random::<i16, _>(&mut src), -1);
    assert_eq!(src.next, 1);
    let mut src = Words { words: vec![9], next: 0 };
    let _: u128 = random(&mut src);
    assert_eq!(src.next, 4);
    let _: Rect = random(&mut src);
    assert_eq!(src.next, 8);
    assert_eq!(u8::word_count(), 1);
    assert_eq!(u128::word_count(), 4);
}

#[test]
fn fill_bytes_draws_a_word_per_four_bytes() {
    let mut src = Words { words: vec![0x04030201], next: 0 };
    assert_eq!(fill_bytes(&mut src, 5), vec![1, 2, 3, 4, 1]);
    assert_eq!(src.next, 2);
}

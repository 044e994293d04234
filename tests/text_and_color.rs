use eadk::color::{black, blue, green, red, white};
use eadk::{Color, TextBuf, TEXTBUF_SIZE};

#[test]
fn bonjour_then_overflow_keeps_offset() {
    let mut arr = [0u8; 16];
    let mut t = TextBuf { buf: &mut arr, offset: 0 };
    assert!(t.write_str("Bonjour").is_ok());
    assert_eq!(t.offset, 7);
    assert!(t.write_str("0123456789").is_err());
    assert_eq!(t.offset, 7);
    assert_eq!(&arr[..7], b"Bonjour");
    assert_eq!(&arr[7..], &[0u8; 9]);
}

#[test]
fn writes_concatenate() {
    let mut arr = [0xaau8; 32];
    let mut t = TextBuf { buf: &mut arr, offset: 0 };
    let frags = ["ab", "", "cde", "line 42."];
    for f in frags.iter() {
        assert!(t.write_str(f).is_ok());
    }
    let total: usize = frags.iter().map(|f| f.len()).sum();
    assert_eq!(t.offset, total);
    assert_eq!(&arr[..total], b"abcdeline 42.");
    assert_eq!(arr[total], 0xaa);
}

#[test]
fn write_that_fills_exactly_succeeds() {
    let mut arr = [0u8; 5];
    let mut t = TextBuf { buf: &mut arr, offset: 0 };
    assert!(t.write_str("abc").is_ok());
    assert!(t.write_str("de").is_ok());
    assert_eq!(t.offset, 5);
    assert!(t.write_str("").is_ok());
    assert!(t.write_str("f").is_err());
    assert_eq!(t.offset, 5);
    assert_eq!(&arr, b"abcde");
}

#[test]
fn failed_write_leaves_buffer_unchanged() {
    let mut arr = [7u8; 4];
    let mut t = TextBuf { buf: &mut arr, offset: 2 };
    assert!(t.write_str("xyz").is_err());
    assert_eq!(t.offset, 2);
    assert_eq!(arr, [7u8; 4]);
}

#[test]
fn multibyte_fragment_counts_bytes() {
    let mut arr = [0u8; 3];
    let mut t = TextBuf { buf: &mut arr, offset: 0 };
    assert!(t.write_str("é").is_ok());
    assert_eq!(t.offset, 2);
    assert!(t.write_str("é").is_err());
    assert_eq!(t.offset, 2);
}

#[test]
fn textbuf_size_is_1024() {
    assert_eq!(TEXTBUF_SIZE, 1024);
}

#[test]
fn named_colors_match_packing() {
    assert_eq!(Color::from_rgb888(255, 0, 0), red());
    assert_eq!(Color::from_rgb888(0, 0, 0), black());
    assert_eq!(Color::from_rgb888(255, 255, 255), white());
    assert_eq!(Color::from_rgb888(0, 255, 0), green());
    assert_eq!(Color::from_rgb888(0, 0, 255), blue());
    assert_eq!(red().rgb565, 0xf800);
    assert_eq!(black().rgb565, 0);
    assert_eq!(white().rgb565, 0xffff);
    assert_eq!(green().rgb565, 0x07e0);
    assert_eq!(blue().rgb565, 0x001f);
}

#[test]
fn packing_drops_low_bits() {
    assert_eq!(Color::from_rgb888(0x12, 0x34, 0x56).rgb565, 4522);
    assert_eq!(Color::from_rgb888(7, 3, 7).rgb565, 0);
    assert_eq!(Color::from_rgb888(8, 4, 8).rgb565, 0x0821);
}

#[test]
fn packing_is_deterministic() {
    for r in [0u8, 1, 127, 200, 255] {
        for g in [0u8, 3, 64, 255] {
            for b in [0u8, 9, 255] {
                assert_eq!(Color::from_rgb888(r, g, b), Color::from_rgb888(r, g, b));
            }
        }
    }
}

#[test]
fn color_default_is_black() {
    assert_eq!(Color::default(), black());
}

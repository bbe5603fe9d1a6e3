use mfekglif::numparse::parse_unsigned;
use mfekglif::reclutch_skia::{SkiaError, SkiaOpenGlFramebuffer, SkiaOpenGlTexture, SurfaceType};
use mfekglif::text::{decimal_string, str_eq};
use mfekglif::editor::history::History;

#[test]
fn unsigned_numbers() {
    assert_eq!(parse_unsigned("600", 10, u64::MAX), Some(600));
    assert_eq!(parse_unsigned("+7", 10, u64::MAX), Some(7));
    assert_eq!(parse_unsigned("00ff", 16, u32::MAX as u64), Some(255));
    assert_eq!(parse_unsigned("FFFFFFFF", 16, u32::MAX as u64), Some(0xFFFF_FFFF));
    assert_eq!(parse_unsigned("100000000", 16, u32::MAX as u64), None);
    assert_eq!(parse_unsigned("", 10, u64::MAX), None);
    assert_eq!(parse_unsigned("+", 10, u64::MAX), None);
    assert_eq!(parse_unsigned("-1", 10, u64::MAX), None);
    assert_eq!(parse_unsigned("12a", 10, u64::MAX), None);
    assert_eq!(parse_unsigned("18446744073709551615", 10, u64::MAX), Some(u64::MAX));
    assert_eq!(parse_unsigned("18446744073709551616", 10, u64::MAX), None);
}

#[test]
fn decimal_numerals() {
    assert_eq!(decimal_string(0), "0");
    assert_eq!(decimal_string(42), "42");
    assert_eq!(decimal_string(1000), "1000");
    assert!(str_eq("abc", "abc"));
    assert!(!str_eq("abc", "abd"));
}

#[test]
fn skia_errors_and_surfaces() {
    assert_eq!(SkiaError::InvalidTarget("framebuffer".to_string()).message(), "the OpenGL target framebuffer is invalid");
    assert_eq!(SkiaError::InvalidContext.message(), "invalid OpenGL context");
    assert_eq!(SkiaError::UnknownError.message(), "unknown skia error");
    let fb = SurfaceType::OpenGlFramebuffer(SkiaOpenGlFramebuffer { size: (640, 480), framebuffer_id: 0 });
    assert_eq!(fb.size(), (640, 480));
    let tex = SurfaceType::OpenGlTexture(SkiaOpenGlTexture { size: (32, 16), mip_mapped: true, texture_id: 3 });
    assert_eq!(tex.size(), (32, 16));
}

#[test]
fn history_adds_undo_entries() {
    let mut h: History<u8> = History::default();
    h.add_undo_entry(1);
    h.add_undo_entry(2);
    assert_eq!(h.undo_stack, vec![1, 2]);
    assert!(h.redo_stack.is_empty());
}

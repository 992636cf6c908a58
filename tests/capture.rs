use remote_work::{
    black_out, redact, redaction_region, title_is_excluded, Frame, PixelRegion, Rgba, WindowInfo,
    WindowRect,
};

const WHITE: Rgba = Rgba { r: 255, g: 255, b: 255, a: 255 };
const BLACK: Rgba = Rgba { r: 0, g: 0, b: 0, a: 255 };

fn frame(w: u32, h: u32) -> Frame {
    Frame { width: w, height: h, pixels: vec![WHITE; (w * h) as usize] }
}

fn window(title: &str, left: i32, top: i32, right: i32, bottom: i32) -> WindowInfo {
    WindowInfo { title: title.to_string(), rect: WindowRect { left, top, right, bottom } }
}

#[test]
fn small_rectangle_is_blacked_exactly() {
    let mut f = frame(10, 10);
    let ws = vec![window("My Password Manager", 2, 3, 5, 6)];
    redact(&mut f, &ws, &vec!["password".to_string()]);
    for y in 0..10u32 {
        for x in 0..10u32 {
            let p = f.pixels[(y * 10 + x) as usize];
            if (2..5).contains(&x) && (3..6).contains(&y) {
                assert_eq!(p, BLACK);
            } else {
                assert_eq!(p, WHITE);
            }
        }
    }
}

#[test]
fn near_full_screen_window_is_never_blacked() {
    let mut f = frame(10, 10);
    let ws = vec![window("secret", 0, 0, 10, 10), window("secret", 0, 0, 10, 10 - 0)];
    redact(&mut f, &ws, &vec!["secret".to_string()]);
    assert!(f.pixels.iter().all(|p| *p == WHITE));
    assert_eq!(redaction_region(WindowRect { left: 0, top: 0, right: 10, bottom: 10 }, 10, 10), None);
    assert_eq!(redaction_region(WindowRect { left: 0, top: 0, right: 10, bottom: 9 }, 10, 10), Some(PixelRegion { x1: 0, y1: 0, x2: 10, y2: 9 }));
    assert_eq!(redaction_region(WindowRect { left: -5, top: -5, right: 20, bottom: 20 }, 10, 10), None);
}

#[test]
fn inverted_rectangle_is_skipped() {
    let mut f = frame(8, 8);
    let ws = vec![window("secret", 5, 1, 2, 4), window("secret", 1, 5, 4, 2)];
    redact(&mut f, &ws, &vec!["secret".to_string()]);
    assert!(f.pixels.iter().all(|p| *p == WHITE));
    assert_eq!(redaction_region(WindowRect { left: 3, top: 1, right: 3, bottom: 4 }, 8, 8), None);
}

#[test]
fn rectangle_is_clamped_to_frame() {
    assert_eq!(
        redaction_region(WindowRect { left: -3, top: 6, right: 2, bottom: 50 }, 10, 8),
        Some(PixelRegion { x1: 0, y1: 6, x2: 2, y2: 8 })
    );
    assert_eq!(redaction_region(WindowRect { left: 12, top: 0, right: 20, bottom: 3 }, 10, 8), None);
}

#[test]
fn unmatched_windows_are_kept() {
    let mut f = frame(6, 6);
    let ws = vec![window("Editor", 0, 0, 3, 3)];
    redact(&mut f, &ws, &vec!["password".to_string(), "key".to_string()]);
    assert!(f.pixels.iter().all(|p| *p == WHITE));
}

#[test]
fn matching_is_case_insensitive_substring() {
    let kws = vec!["secret".to_string(), "key".to_string()];
    assert!(title_is_excluded("TOP SECRET plans", &kws));
    assert!(title_is_excluded("Monkey", &kws));
    assert!(!title_is_excluded("Notes", &kws));
    assert!(!title_is_excluded("anything", &vec![]));
}

#[test]
fn black_out_touches_only_region() {
    let mut f = frame(4, 3);
    black_out(&mut f, PixelRegion { x1: 1, y1: 1, x2: 3, y2: 2 });
    let blacks: Vec<usize> = (0..12).filter(|i| f.pixels[*i] == BLACK).collect();
    assert_eq!(blacks, vec![5, 6]);
}

#[test]
fn two_windows_both_redacted() {
    let mut f = frame(10, 10);
    let ws = vec![window("key vault", 0, 0, 2, 2), window("private", 8, 8, 10, 10)];
    redact(&mut f, &ws, &vec!["key".to_string(), "private".to_string()]);
    assert_eq!(f.pixels.iter().filter(|p| **p == BLACK).count(), 8);
    assert_eq!(f.pixels[0], BLACK);
    assert_eq!(f.pixels[99], BLACK);
    assert_eq!(f.pixels[50], WHITE);
}

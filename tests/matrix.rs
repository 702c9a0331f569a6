use ubit::display::LedDisplay;
use ubit::leds::images::{Glyph, HEART, MID_DOT};
use ubit::leds::{Display, PLANE_DELAYS};
use ubit::scan::LED_LAYOUT;

fn numbered_image() -> [[u8; 5]; 5] {
    let mut img = [[0u8; 5]; 5];
    for r in 0..5 {
        for c in 0..5 {
            img[r][c] = (r * 5 + c + 1) as u8;
        }
    }
    img
}

fn assert_shows(buf: &[[u8; 9]; 3], img: &[[u8; 5]; 5]) {
    for r in 0..5 {
        for c in 0..5 {
            let (p, q) = LED_LAYOUT[r][c];
            assert_eq!(buf[p][q], img[r][c]);
        }
    }
    assert_eq!(buf[1][7], 0);
    assert_eq!(buf[1][8], 0);
}

#[test]
fn corner_leds_scenario() {
    let mut img = [[0u8; 5]; 5];
    img[4] = [1, 0, 0, 0, 1];
    let mut d = LedDisplay::new();
    d.display(img);
    for _ in 0..3 {
        d.update_row();
    }
    let buf = d.buffer();
    for p in 0..3 {
        for q in 0..9 {
            let expected = (p, q) == LED_LAYOUT[4][0] || (p, q) == LED_LAYOUT[4][4];
            assert_eq!(buf[p][q] > 0, expected, "cell ({}, {})", p, q);
        }
    }
    assert_eq!(LED_LAYOUT[4][0], (2, 2));
    assert_eq!(LED_LAYOUT[4][4], (2, 1));
}

#[test]
fn full_scan_shows_image() {
    let img = numbered_image();
    let mut d = LedDisplay::new();
    d.update_row();
    d.display(img);
    d.update_row();
    d.update_row();
    assert_eq!(d.row(), 0);
    assert_shows(&d.buffer(), &img);
    d.update_row();
    d.update_row();
    assert_shows(&d.buffer(), &img);
}

#[test]
fn submit_mid_cycle_waits_for_wrap() {
    let mut d = LedDisplay::new();
    d.display(HEART);
    for _ in 0..3 {
        d.update_row();
    }
    let before = d.buffer();
    d.update_row();
    d.display(MID_DOT);
    assert_eq!(d.buffer(), before);
    d.update_row();
    assert_eq!(d.row(), 2);
    assert_eq!(d.buffer(), before);
    d.update_row();
    assert_eq!(d.row(), 0);
    assert_shows(&d.buffer(), &MID_DOT);
}

#[test]
fn plain_lines_follow_row() {
    let mut img = [[0u8; 5]; 5];
    img[0][0] = 9;
    let mut d = LedDisplay::new();
    d.display(img);
    d.update_row();
    d.update_row();
    d.update_row();
    let l = d.lines();
    assert_eq!(l.rows, [true, false, false]);
    assert_eq!(l.cols, [true, false, false, false, false, false, false, false, false]);
    d.update_row();
    let l = d.lines();
    assert_eq!(l.rows, [false, true, false]);
    assert_eq!(l.cols, [false; 9]);
}

#[test]
fn clear_puts_everything_out() {
    let mut d = LedDisplay::new();
    d.display(HEART);
    let l = d.clear();
    assert_eq!(l.rows, [false; 3]);
    assert_eq!(l.cols, [false; 9]);
    let b = Display::new().clear();
    assert_eq!(b.rows, [false; 3]);
    assert_eq!(b.cols, [false; 9]);
}

#[test]
fn plane_delays_grow_with_weight() {
    let mut d = Display::new();
    assert_eq!(d.intensity(), 1);
    let mut seen = Vec::new();
    for _ in 0..8 {
        seen.push(d.update_col());
    }
    assert_eq!(seen, vec![0, 0, 163, 351, 726, 1476, 2976, 0]);
    assert_eq!(d.intensity(), 1);
    assert_eq!(d.row(), 1);
    assert_eq!(PLANE_DELAYS, [0, 0, 0, 163, 351, 726, 1476, 2976]);
}

#[test]
fn bit_planes_light_by_bit() {
    let mut img = [[0u8; 5]; 5];
    img[0][0] = 0b1000_0001;
    img[0][1] = 0b0000_0010;
    let mut d = Display::new();
    d.display(img);
    while !(d.row() == 0 && d.intensity() == 1) || d.buffer()[0][0] == 0 {
        d.update_col();
    }
    let (_, q0) = LED_LAYOUT[0][0];
    let (_, q1) = LED_LAYOUT[3][0];
    let l = d.lines();
    assert_eq!(l.rows, [true, false, false]);
    assert!(l.cols[q0]);
    d.update_col();
    assert_eq!(d.intensity(), 2);
    let l = d.lines();
    assert!(!l.cols[q0]);
    let (_, q2) = LED_LAYOUT[0][1];
    assert_eq!(LED_LAYOUT[0][1].0, 1);
    assert!(!l.cols[q1]);
    for _ in 0..6 {
        d.update_col();
    }
    assert_eq!(d.intensity(), 0x80);
    assert!(d.lines().cols[q0]);
    d.update_col();
    assert_eq!(d.row(), 1);
    d.update_col();
    assert!(d.lines().cols[q2]);
}

#[test]
fn bit_plane_scan_commits_after_full_cycle() {
    let img = numbered_image();
    let mut d = Display::new();
    for _ in 0..5 {
        d.update_col();
    }
    d.display(img);
    let before = d.buffer();
    let mut steps = 0;
    while d.buffer() == before {
        d.update_col();
        steps += 1;
        assert!(steps <= 24);
    }
    assert_eq!(d.row(), 0);
    assert_eq!(d.intensity(), 1);
    assert_eq!(steps, (8 - 5) + 8 * 2);
    assert_shows(&d.buffer(), &img);
}

#[test]
fn glyph_images() {
    assert_eq!(Glyph::Heart.image(), HEART);
    assert_eq!(Glyph::MidDot.image()[2][2], 0xff);
    assert_eq!(Glyph::Clear.image(), [[0u8; 5]; 5]);
}

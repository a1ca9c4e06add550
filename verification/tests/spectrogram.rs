use gstplugins::spectrogram::{
    analysis_offset, draw_column, row_to_bin, AudioSpectrogram, Scratchpad, SpectrogramError,
    VideoLayout, NUM_BINS, WINDOW_SIZE,
};

#[test]
fn top_row_shows_highest_bin() {
    assert_eq!(row_to_bin(0, 100), 128);
    assert_eq!(row_to_bin(0, 1), 128);
}

#[test]
fn bottom_row_shows_lowest_drawn_bin() {
    assert_eq!(row_to_bin(127, 128), 1);
    assert_eq!(row_to_bin(99, 100), 2);
}

#[test]
fn rows_map_proportionally() {
    assert_eq!(row_to_bin(64, 128), 64);
    assert_eq!(row_to_bin(1, 3), 86);
    assert_eq!(row_to_bin(2, 3), 43);
}

#[test]
fn every_row_maps_inside_spectrum() {
    for height in 1u32..300 {
        for row in 0..height {
            let bin = row_to_bin(row, height);
            assert!(bin >= 1 && bin <= NUM_BINS as usize);
        }
    }
}

fn levels() -> Vec<u8> {
    (0..=128u32).map(|i| i as u8).collect()
}

#[test]
fn draw_column_paints_each_row() {
    let mut plane = vec![255u8; 3 * 4];
    draw_column(&levels(), 4, 1, 3, 2, &mut plane);
    assert_eq!(
        plane,
        vec![255, 255, 128, 255, 255, 255, 86, 255, 255, 255, 43, 255]
    );
}

#[test]
fn draw_column_respects_pixel_stride() {
    let mut plane = vec![0u8; 2 * 6];
    draw_column(&levels(), 6, 2, 2, 1, &mut plane);
    assert_eq!(plane, vec![0, 0, 128, 0, 0, 0, 0, 0, 64, 0, 0, 0]);
}

#[test]
fn draw_column_with_no_rows_changes_nothing() {
    let mut plane = vec![7u8; 4];
    draw_column(&[], 1, 1, 0, 0, &mut plane);
    assert_eq!(plane, vec![7u8; 4]);
}

#[test]
fn new_scratchpad_is_black() {
    let s = Scratchpad::new(4, 2, 8);
    assert_eq!(s.data(), &[0u8; 8][..]);
    assert_eq!(s.current_column(), 0);
    assert_eq!(s.width(), 4);
    assert_eq!(s.height(), 2);
}

#[test]
fn column_wraps_after_last() {
    let mut s = Scratchpad::new(3, 1, 3);
    let mut seen = Vec::new();
    for _ in 0..7 {
        seen.push(s.current_column());
        s.next();
    }
    assert_eq!(seen, vec![0, 1, 2, 0, 1, 2, 0]);
}

#[test]
fn column_returns_after_width_steps() {
    let mut s = Scratchpad::new(5, 1, 5);
    s.next();
    s.next();
    let start = s.current_column();
    for _ in 0..5 {
        s.next();
    }
    assert_eq!(s.current_column(), start);
}

#[test]
fn zero_width_stays_at_column_zero() {
    let mut s = Scratchpad::new(0, 0, 0);
    s.next();
    assert_eq!(s.current_column(), 0);
}

#[test]
fn copy_into_rotates_rows_so_current_column_is_last() {
    // 4 columns, 2 rows; current column 1 -> pivot 2.
    let mut spectrogram = AudioSpectrogram::new();
    spectrogram.setup(Some(VideoLayout { width: 4, height: 2, size: 8 }));
    let mut out = vec![0u8; 8];
    let lv = levels();
    // first window: column 0, rows show bins 128 and 64
    spectrogram.visualize(&lv, 4, 1, 2, &mut out).unwrap();
    assert_eq!(out, vec![0, 0, 0, 128, 0, 0, 0, 64]);
    // second window: column 1
    let lv2: Vec<u8> = lv.iter().map(|v| v / 2).collect();
    spectrogram.visualize(&lv2, 4, 1, 2, &mut out).unwrap();
    assert_eq!(out, vec![0, 0, 128, 64, 0, 0, 64, 32]);
    assert_eq!(spectrogram.scratchpad().unwrap().current_column(), 2);
}

#[test]
fn scratchpad_copy_into_direct() {
    let mut s = Scratchpad::new(3, 2, 6);
    let lv = levels();
    s.paint_column(&lv, 3, 1, 2, 0);
    // scratch: [128, 0, 0, 64, 0, 0], column 0 -> pivot 1, left 2
    assert_eq!(s.data(), &[128, 0, 0, 64, 0, 0][..]);
    let mut out = vec![9u8; 6];
    s.copy_into(3, 1, &mut out);
    assert_eq!(out, vec![0, 0, 128, 0, 0, 64]);
}

#[test]
fn copy_into_leaves_row_padding_alone() {
    // width 2, stride 3: the third byte of each row is padding.
    let mut s = Scratchpad::new(2, 2, 6);
    s.paint_column(&levels(), 3, 1, 2, 1);
    s.next();
    let mut out = vec![9u8; 6];
    s.copy_into(3, 1, &mut out);
    // column 1 -> pivot 2, left 0: rows copied unrotated
    assert_eq!(out, vec![0, 128, 9, 0, 64, 9]);
}

#[test]
fn visualize_without_format_fails() {
    let mut spectrogram = AudioSpectrogram::new();
    let mut out = vec![5u8; 4];
    let r = spectrogram.visualize(&levels(), 2, 1, 2, &mut out);
    assert_eq!(r, Err(SpectrogramError::ScratchpadNotReady));
    assert_eq!(out, vec![5u8; 4]);
    assert!(spectrogram.scratchpad().is_none());
}

#[test]
fn error_message() {
    assert_eq!(
        SpectrogramError::ScratchpadNotReady.message(),
        "scratchpad not yet available"
    );
}

#[test]
fn setup_without_format_keeps_scratchpad() {
    let mut spectrogram = AudioSpectrogram::new();
    spectrogram.setup(Some(VideoLayout { width: 2, height: 1, size: 2 }));
    spectrogram.setup(None);
    assert_eq!(spectrogram.scratchpad().unwrap().width(), 2);
}

#[test]
fn setup_replaces_scratchpad() {
    let mut spectrogram = AudioSpectrogram::new();
    spectrogram.setup(Some(VideoLayout { width: 2, height: 1, size: 2 }));
    let mut out = vec![0u8; 2];
    spectrogram.visualize(&levels(), 2, 1, 1, &mut out).unwrap();
    spectrogram.setup(Some(VideoLayout { width: 3, height: 2, size: 6 }));
    let s = spectrogram.scratchpad().unwrap();
    assert_eq!(s.width(), 3);
    assert_eq!(s.height(), 2);
    assert_eq!(s.current_column(), 0);
    assert_eq!(s.data(), &[0u8; 6][..]);
}

#[test]
fn analysis_window_is_the_last_window() {
    assert_eq!(WINDOW_SIZE, 256);
    assert_eq!(analysis_offset(4, 4 * 256), Some(0));
    assert_eq!(analysis_offset(4, 4 * 300), Some(4 * 44));
    assert_eq!(analysis_offset(4, 4 * 255), None);
    assert_eq!(analysis_offset(0, 0), Some(0));
}

#[test]
fn fits_accepts_a_matching_frame() {
    let mut spectrogram = AudioSpectrogram::new();
    assert!(spectrogram.fits(&levels(), 4, 1, 2, 0));
    spectrogram.setup(Some(VideoLayout { width: 4, height: 2, size: 8 }));
    assert!(spectrogram.fits(&levels(), 4, 1, 2, 8));
}

#[test]
fn fits_rejects_small_frames_and_short_spectra() {
    let mut spectrogram = AudioSpectrogram::new();
    spectrogram.setup(Some(VideoLayout { width: 4, height: 2, size: 8 }));
    assert!(!spectrogram.fits(&levels(), 4, 1, 2, 7));
    assert!(!spectrogram.fits(&levels()[..128], 4, 1, 2, 8));
    assert!(!spectrogram.fits(&levels(), 4, 1, 3, 8));
    assert!(!spectrogram.fits(&levels(), 4, 2, 2, 8));
}

#[test]
fn newest_window_is_the_rightmost_column() {
    let mut spectrogram = AudioSpectrogram::new();
    spectrogram.setup(Some(VideoLayout { width: 3, height: 2, size: 6 }));
    let mut out = vec![0u8; 6];
    for k in 1..=7u8 {
        let lv: Vec<u8> = (0..=128u32).map(|i| (i as u8).wrapping_add(k)).collect();
        spectrogram.visualize(&lv, 3, 1, 2, &mut out).unwrap();
        assert_eq!(out[2], 128u8.wrapping_add(k));
        assert_eq!(out[5], 64u8.wrapping_add(k));
    }
    // the two previous windows sit to the left, oldest first
    assert_eq!(&out[..3], &[128 + 5, 128 + 6, 128 + 7]);
}

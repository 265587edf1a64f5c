use matrix_clock::clock::ClockState;
use matrix_clock::display::{compose_rows, glyph_indices, prepare_buffer, slice_devices};
use matrix_clock::font::{glyph_pixel_lit, COLON, FONT};

fn column_lit(rows: &[u32; 8], r: usize, col: usize) -> bool {
    (rows[r] >> (31 - col)) & 1 == 1
}

#[test]
fn glyph_sequence_of_12_34_56() {
    let c = ClockState::new(12, 34, 56);
    assert_eq!(glyph_indices(&c), [1, 2, 10, 3, 4, 10, 5, 6]);
    assert_eq!(COLON, 10);
}

#[test]
fn frame_of_12_34_56_spans_columns_0_to_30() {
    let rows = compose_rows(&ClockState::new(12, 34, 56));
    assert_eq!(
        rows,
        [
            0x240420e4, 0x6a0a6088, 0xa242a488, 0x2404a0cc, 0x2802e02a, 0x2842242a, 0x280a20aa,
            0x2e042044,
        ]
    );
    assert!((0..8).any(|r| column_lit(&rows, r, 0)));
    assert!((0..8).any(|r| column_lit(&rows, r, 30)));
    for r in 0..8 {
        assert!(!column_lit(&rows, r, 31));
    }
}

#[test]
fn gap_columns_stay_dark() {
    for (h, m, s) in [(12, 34, 56), (0, 0, 0), (23, 59, 59), (8, 8, 8)] {
        let rows = compose_rows(&ClockState::new(h, m, s));
        for r in 0..8 {
            for gap in [3, 7, 11, 15, 19, 23, 27, 31] {
                assert!(!column_lit(&rows, r, gap));
            }
        }
    }
}

#[test]
fn frame_columns_follow_the_glyphs() {
    let c = ClockState::new(23, 59, 59);
    let rows = compose_rows(&c);
    let glyphs = glyph_indices(&c);
    for i in 0..8 {
        for r in 0..8 {
            for col in 0..3 {
                let lit = (FONT[glyphs[i] as usize][r] >> (2 - col)) & 1 == 1;
                assert_eq!(column_lit(&rows, r, 4 * i + col), lit);
                assert_eq!(glyph_pixel_lit(glyphs[i], r, col), lit);
            }
        }
    }
}

#[test]
fn device_buffers_of_12_34_56() {
    let bufs = prepare_buffer(&ClockState::new(12, 34, 56));
    assert_eq!(
        bufs,
        [
            [36, 106, 162, 36, 40, 40, 40, 46],
            [4, 10, 66, 4, 2, 66, 10, 4],
            [32, 96, 164, 160, 224, 36, 32, 32],
            [228, 136, 136, 204, 42, 42, 170, 68],
        ]
    );
}

#[test]
fn device_buffers_of_midnight() {
    let bufs = prepare_buffer(&ClockState::new(0, 0, 0));
    assert_eq!(
        bufs,
        [
            [68, 170, 170, 170, 170, 170, 170, 68],
            [4, 10, 74, 10, 10, 74, 10, 4],
            [64, 160, 164, 160, 160, 164, 160, 64],
            [68, 170, 170, 170, 170, 170, 170, 68],
        ]
    );
}

#[test]
fn device_zero_takes_the_top_byte() {
    let rows = [0x1234_5678u32, 0, 0xff00_00ff, 0x8000_0001, 0, 0, 0, 0xdead_beef];
    let bufs = slice_devices(&rows);
    assert_eq!([bufs[0][0], bufs[1][0], bufs[2][0], bufs[3][0]], [0x12, 0x34, 0x56, 0x78]);
    assert_eq!([bufs[0][2], bufs[1][2], bufs[2][2], bufs[3][2]], [0xff, 0, 0, 0xff]);
    assert_eq!([bufs[0][3], bufs[3][3]], [0x80, 0x01]);
    assert_eq!([bufs[0][7], bufs[1][7], bufs[2][7], bufs[3][7]], [0xde, 0xad, 0xbe, 0xef]);
}

#[test]
fn composing_twice_gives_the_same_bytes() {
    for (h, m, s) in [(12, 34, 56), (0, 0, 0), (23, 59, 59), (9, 5, 1)] {
        let c = ClockState::new(h, m, s);
        assert_eq!(prepare_buffer(&c), prepare_buffer(&c));
    }
}

#[test]
fn last_device_rightmost_column_is_dark() {
    for h in 0..24u8 {
        for m in [0u8, 17, 59] {
            let bufs = prepare_buffer(&ClockState::new(h, m, m));
            for r in 0..8 {
                assert_eq!(bufs[3][r] & 1, 0);
            }
        }
    }
}

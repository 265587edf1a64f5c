use vstd::prelude::*;

use crate::clock::ClockState;
use crate::font::{glyph_pixel, glyph_pixel_lit, COLON, GLYPH_WIDTH};

verus! {

/// Columns of the framebuffer.
pub const FRAME_WIDTH: usize = 32;

/// Rows of the framebuffer and of each device buffer.
pub const FRAME_ROWS: usize = 8;

/// Display modules in the chain.
pub const DEVICE_COUNT: usize = 4;

/// Glyphs shown: `HH:MM:SS`.
pub const GLYPHS_SHOWN: usize = 8;

/// Blank columns between neighbouring glyphs.
pub const GLYPH_GAP: usize = 1;

/// The glyphs that show `c`, left to right.
pub open spec fn glyph_sequence(c: ClockState) -> Seq<int> {
    seq![
        c.hours as int / 10, c.hours as int % 10, COLON as int,
        c.mins as int / 10, c.mins as int % 10, COLON as int,
        c.secs as int / 10, c.secs as int % 10,
    ]
}

/// Whether the framebuffer of `c` lights row `r`, column `col`: glyph `i`
/// covers columns `4i .. 4i + 2`, every fourth column is a gap, and column 31
/// stays blank.
pub open spec fn frame_pixel(c: ClockState, r: int, col: int) -> bool {
    &&& 0 <= col < 31
    &&& col % 4 != 3
    &&& glyph_pixel(glyph_sequence(c)[col / 4], r, col % 4)
}

/// Whether a packed framebuffer row lights column `col`; column 0 is the most
/// significant bit.
pub open spec fn column_lit(row: u32, col: int) -> bool {
    (row >> ((31 - col) as u32)) & 1u32 == 1u32
}

/// Whether a device byte lights its column `k`; column 0 is the most
/// significant bit.
pub open spec fn byte_column_lit(b: u8, k: int) -> bool {
    (b >> ((7 - k) as u8)) & 1u8 == 1u8
}

/// The byte that device `d` shows on a row: the row shifted right by
/// `24 - 8d`, low eight bits.
pub open spec fn device_byte(row: u32, d: int) -> u8 {
    ((row >> ((24 - 8 * d) as u32)) & 0xffu32) as u8
}

/// Whether the device buffers show the framebuffer of `c`: bit `7 - k` of
/// device `d`'s byte for row `r` is framebuffer column `8d + k`.
pub open spec fn displays(bufs: [[u8; 8]; 4], c: ClockState) -> bool {
    forall|d: int, r: int, k: int|
        0 <= d < 4 && 0 <= r < 8 && 0 <= k < 8 ==> #[trigger] byte_column_lit(bufs[d][r], k)
            == frame_pixel(c, r, 8 * d + k)
}

/// The glyph indices of `clock`, left to right: `[H/10, H%10, :, M/10, M%10, :, S/10, S%10]`.
pub fn glyph_indices(clock: &ClockState) -> (g: [u8; 8])
    requires
        clock.wf(),
    ensures
        forall|i: int| 0 <= i < 8 ==> g[i] == glyph_sequence(*clock)[i],
        forall|i: int| 0 <= i < 8 ==> g[i] < 11,
{
    [
        clock.hours / 10, clock.hours % 10, COLON,
        clock.mins / 10, clock.mins % 10, COLON,
        clock.secs / 10, clock.secs % 10,
    ]
}

/// Whether the composition has reached row `rr`, column `col` once glyphs
/// `0..i` are drawn, and of glyph `i` rows `0..r` and, in row `r`, columns `0..c`.
spec fn drawn(i: int, r: int, c: int, rr: int, col: int) -> bool {
    ||| col < 4 * i
    ||| 4 * i <= col < 4 * i + 3 && (rr < r || (rr == r && col < 4 * i + c))
}

/// Composes the framebuffer of `clock`: eight rows of 32 columns, the glyphs of
/// `HH:MM:SS` three columns wide with a blank column between them.
pub fn compose_rows(clock: &ClockState) -> (rows: [u32; 8])
    requires
        clock.wf(),
    ensures
        forall|r: int, col: int|
            0 <= r < 8 && 0 <= col < 32 ==> #[trigger] column_lit(rows[r], col) == frame_pixel(
                *clock,
                r,
                col,
            ),
{
    let digits = glyph_indices(clock);
    let mut rows = [0u32; 8];
    let mut cursor: usize = 0;
    let mut i: usize = 0;
    assert forall|r: int, col: int| 0 <= r < 8 && 0 <= col < 32 implies !column_lit(
        rows[r],
        col,
    ) by {
        let k = (31 - col) as u32;
        assert((0u32 >> k) & 1u32 == 0u32) by (bit_vector);
    }
    while i < GLYPHS_SHOWN
        invariant
            clock.wf(),
            i <= 8,
            i < 8 ==> cursor == 4 * i,
            forall|j: int| 0 <= j < 8 ==> digits[j] == glyph_sequence(*clock)[j],
            forall|j: int| 0 <= j < 8 ==> digits[j] < 11,
            forall|rr: int, col: int|
                0 <= rr < 8 && 0 <= col < 32 ==> #[trigger] column_lit(rows[rr], col) == (
                col < 4 * i && frame_pixel(*clock, rr, col)),
        decreases 8 - i,
    {
        let g = digits[i];
        let mut r: usize = 0;
        while r < FRAME_ROWS
            invariant
                clock.wf(),
                i < 8,
                r <= 8,
                cursor == 4 * i,
                g == digits[i as int],
                g < 11,
                forall|j: int| 0 <= j < 8 ==> digits[j] == glyph_sequence(*clock)[j],
                forall|rr: int, col: int|
                    0 <= rr < 8 && 0 <= col < 32 ==> #[trigger] column_lit(rows[rr], col) == (
                    drawn(i as int, r as int, 0, rr, col) && frame_pixel(*clock, rr, col)),
            decreases 8 - r,
        {
            let mut c: usize = 0;
            while c < GLYPH_WIDTH
                invariant
                    clock.wf(),
                    i < 8,
                    r < 8,
                    c <= 3,
                    cursor == 4 * i,
                    g == digits[i as int],
                    g < 11,
                    forall|j: int| 0 <= j < 8 ==> digits[j] == glyph_sequence(*clock)[j],
                    forall|rr: int, col: int|
                        0 <= rr < 8 && 0 <= col < 32 ==> #[trigger] column_lit(rows[rr], col) == (
                        drawn(i as int, r as int, c as int, rr, col) && frame_pixel(
                            *clock,
                            rr,
                            col,
                        )),
                decreases 3 - c,
            {
                let ghost col0 = 4 * i + c;
                assert(col0 / 4 == i && col0 % 4 == c);
                assert(frame_pixel(*clock, r as int, col0) == glyph_pixel(g as int, r as int, c as int));
                if glyph_pixel_lit(g, r, c) && cursor + c < FRAME_WIDTH {
                    let pos = (31 - (cursor + c)) as u32;
                    let old_rows = rows;
                    rows[r] = rows[r] | (1u32 << pos);
                    assert forall|rr: int, col: int|
                        0 <= rr < 8 && 0 <= col < 32 implies #[trigger] column_lit(rows[rr], col)
                            == (drawn(i as int, r as int, c + 1, rr, col) && frame_pixel(
                            *clock,
                            rr,
                            col,
                        )) by {
                        assert(column_lit(old_rows[rr], col) == (drawn(
                            i as int,
                            r as int,
                            c as int,
                            rr,
                            col,
                        ) && frame_pixel(*clock, rr, col)));
                        if rr == r {
                            lemma_set_bit(old_rows[rr], pos, (31 - col) as u32);
                        }
                    }
                }
                c = c + 1;
            }
            r = r + 1;
        }
        cursor = cursor + GLYPH_WIDTH;
        if i < GLYPHS_SHOWN - 1 {
            cursor = cursor + GLYPH_GAP;
        }
        i = i + 1;
    }
    rows
}

/// Slices packed framebuffer rows into the four device buffers: device `d`
/// row `r` is `(rows[r] >> (24 - 8d)) & 0xff`, so device 0 holds the leftmost
/// eight columns and device 3 the rightmost.
pub fn slice_devices(rows: &[u32; 8]) -> (bufs: [[u8; 8]; 4])
    ensures
        forall|d: int, r: int|
            0 <= d < 4 && 0 <= r < 8 ==> #[trigger] bufs[d][r] == device_byte(rows[r], d),
{
    let mut bufs = [[0u8; 8]; 4];
    let mut d: usize = 0;
    while d < DEVICE_COUNT
        invariant
            d <= 4,
            forall|dd: int, r: int|
                0 <= dd < d && 0 <= r < 8 ==> #[trigger] bufs[dd][r] == device_byte(rows[r], dd),
        decreases 4 - d,
    {
        let mut dev = [0u8; 8];
        let shift = (24 - d * 8) as u32;
        let mut r: usize = 0;
        while r < FRAME_ROWS
            invariant
                d < 4,
                r <= 8,
                shift == 24 - 8 * d,
                forall|rr: int| 0 <= rr < r ==> #[trigger] dev[rr] == device_byte(rows[rr], d as int),
            decreases 8 - r,
        {
            dev[r] = ((rows[r] >> shift) & 0xff) as u8;
            r = r + 1;
        }
        bufs[d] = dev;
        d = d + 1;
    }
    bufs
}

/// Composes the display of `clock` and slices it into the four device
/// buffers. The rightmost column of the last device stays dark.
pub fn prepare_buffer(clock: &ClockState) -> (bufs: [[u8; 8]; 4])
    requires
        clock.wf(),
    ensures
        displays(bufs, *clock),
        forall|r: int| 0 <= r < 8 ==> #[trigger] bufs[3][r] & 1u8 == 0u8,
{
    let rows = compose_rows(clock);
    let bufs = slice_devices(&rows);
    assert forall|d: int, r: int, k: int|
        0 <= d < 4 && 0 <= r < 8 && 0 <= k < 8 implies #[trigger] byte_column_lit(bufs[d][r], k)
            == frame_pixel(*clock, r, 8 * d + k) by {
        lemma_device_bit(rows[r], d as u32, k as u32);
        assert(column_lit(rows[r], 8 * d + k) == frame_pixel(*clock, r, 8 * d + k));
    }
    assert forall|r: int| 0 <= r < 8 implies #[trigger] bufs[3][r] & 1u8 == 0u8 by {
        assert(!byte_column_lit(bufs[3][r], 7));
        let b = bufs[3][r];
        assert((b >> 0u8) & 1u8 != 1u8 ==> b & 1u8 == 0u8) by (bit_vector);
    }
    bufs
}

/// The device buffers that show a clock are determined by it: composing the
/// same time twice gives the same bytes.
pub proof fn lemma_compose_deterministic(a: [[u8; 8]; 4], b: [[u8; 8]; 4], c: ClockState)
    requires
        displays(a, c),
        displays(b, c),
    ensures
        a == b,
{
    assert forall|d: int| 0 <= d < 4 implies #[trigger] a[d] == b[d] by {
        assert forall|r: int| 0 <= r < 8 implies #[trigger] a[d][r] == b[d][r] by {
            assert(byte_column_lit(a[d][r], 0) == byte_column_lit(b[d][r], 0));
            assert(byte_column_lit(a[d][r], 1) == byte_column_lit(b[d][r], 1));
            assert(byte_column_lit(a[d][r], 2) == byte_column_lit(b[d][r], 2));
            assert(byte_column_lit(a[d][r], 3) == byte_column_lit(b[d][r], 3));
            assert(byte_column_lit(a[d][r], 4) == byte_column_lit(b[d][r], 4));
            assert(byte_column_lit(a[d][r], 5) == byte_column_lit(b[d][r], 5));
            assert(byte_column_lit(a[d][r], 6) == byte_column_lit(b[d][r], 6));
            assert(byte_column_lit(a[d][r], 7) == byte_column_lit(b[d][r], 7));
            lemma_bytes_equal_by_columns(a[d][r], b[d][r]);
        }
        assert(a[d] =~= b[d]);
    }
    assert(a =~= b);
}

proof fn lemma_bytes_equal_by_columns(x: u8, y: u8)
    by (bit_vector)
    requires
        ((x >> 7u8) & 1u8 == 1u8) == ((y >> 7u8) & 1u8 == 1u8),
        ((x >> 6u8) & 1u8 == 1u8) == ((y >> 6u8) & 1u8 == 1u8),
        ((x >> 5u8) & 1u8 == 1u8) == ((y >> 5u8) & 1u8 == 1u8),
        ((x >> 4u8) & 1u8 == 1u8) == ((y >> 4u8) & 1u8 == 1u8),
        ((x >> 3u8) & 1u8 == 1u8) == ((y >> 3u8) & 1u8 == 1u8),
        ((x >> 2u8) & 1u8 == 1u8) == ((y >> 2u8) & 1u8 == 1u8),
        ((x >> 1u8) & 1u8 == 1u8) == ((y >> 1u8) & 1u8 == 1u8),
        ((x >> 0u8) & 1u8 == 1u8) == ((y >> 0u8) & 1u8 == 1u8),
    ensures
        x == y,
{
}

proof fn lemma_set_bit(x: u32, k: u32, j: u32)
    by (bit_vector)
    requires
        k < 32,
        j < 32,
    ensures
        ((x | (1u32 << k)) >> j) & 1u32 == (if j == k { 1u32 } else { (x >> j) & 1u32 }),
{
}

proof fn lemma_device_bit(row: u32, d: u32, k: u32)
    by (bit_vector)
    requires
        d < 4,
        k < 8,
    ensures
        ((((row >> (24 - 8 * d) as u32) & 0xffu32) as u8) >> (7 - k) as u8) & 1u8 == 1u8
            <==> (row >> (31 - (8 * d + k)) as u32) & 1u32 == 1u32,
{
}

} // verus!

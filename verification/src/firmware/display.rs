//! Pixel-level helpers of the GC9A01 240x240 circular display (RGB565).
use vstd::prelude::*;

verus! {

pub const WIDTH: u16 = 240;

pub const HEIGHT: u16 = 240;

pub const BLACK: u16 = 0x0000;

pub const WHITE: u16 = 0xFFFF;

/// ~0xFF7D00
pub const ORANGE: u16 = 0xFBE0;

/// RGB565 packing: the top 5 bits of red, 6 of green and 5 of blue.
pub open spec fn rgb565_of(r: u8, g: u8, b: u8) -> int {
    (r as int / 8) * 2048 + (g as int / 4) * 32 + b as int / 8
}

/// RGB565 color helpers.
pub fn rgb565(r: u8, g: u8, b: u8) -> (c: u16)
    ensures
        c == rgb565_of(r, g, b),
{
    let (r16, g16, b16) = (r as u16, g as u16, b as u16);
    assert((((r16 & 0xF8u16) << 8u16) | ((g16 & 0xFCu16) << 3u16) | (b16 >> 3u16)) == (r16 / 8)
        * 2048 + (g16 / 4) * 32 + b16 / 8) by (bit_vector)
        requires
            r16 < 256,
            g16 < 256,
            b16 < 256,
    ;
    ((r16 & 0xF8) << 8) | ((g16 & 0xFC) << 3) | (b16 >> 3)
}

/// A 24-bit color in the form the display library takes.
#[derive(Debug, Clone, Copy, PartialEq, Eq, Structural)]
pub struct LvColor {
    pub red: u8,
    pub green: u8,
    pub blue: u8,
}

/// Create a display color from hex value (0xRRGGBB); higher bits are ignored.
pub fn color_hex(hex: u32) -> (c: LvColor)
    ensures
        c.red == (hex / 0x10000) % 0x100,
        c.green == (hex / 0x100) % 0x100,
        c.blue == hex % 0x100,
{
    assert(((hex >> 16) & 0xFF) == (hex / 0x10000) % 0x100) by (bit_vector);
    assert(((hex >> 8) & 0xFF) == (hex / 0x100) % 0x100) by (bit_vector);
    assert((hex & 0xFF) == hex % 0x100) by (bit_vector);
    LvColor {
        red: ((hex >> 16) & 0xFF) as u8,
        green: ((hex >> 8) & 0xFF) as u8,
        blue: (hex & 0xFF) as u8,
    }
}

pub fn color_white() -> (c: LvColor)
    ensures
        c == (LvColor { red: 255, green: 255, blue: 255 }),
{
    LvColor { red: 255, green: 255, blue: 255 }
}

/// Data bytes of a column or row address command: start and end address,
/// each big-endian.
pub fn window_bytes(first: u16, last: u16) -> (bytes: [u8; 4])
    ensures
        bytes@ == seq![
            (first / 256) as u8,
            (first % 256) as u8,
            (last / 256) as u8,
            (last % 256) as u8,
        ],
{
    assert((first >> 8u16) == first / 256 && (first & 0xFFu16) == first % 256) by (bit_vector);
    assert((last >> 8u16) == last / 256 && (last & 0xFFu16) == last % 256) by (bit_vector);
    let bytes = [(first >> 8) as u8, (first & 0xFF) as u8, (last >> 8) as u8, (last & 0xFF) as u8];
    assert(bytes@ =~= seq![
        (first / 256) as u8,
        (first % 256) as u8,
        (last / 256) as u8,
        (last % 256) as u8,
    ]);
    bytes
}

/// Pixel data as the display takes it: each RGB565 value big-endian.
pub fn pixels_to_be_bytes(pixels: &[u16]) -> (bytes: Vec<u8>)
    requires
        pixels@.len() * 2 <= usize::MAX,
    ensures
        bytes@.len() == pixels@.len() * 2,
        forall|i: int|
            0 <= i < pixels@.len() ==> #[trigger] bytes@[2 * i] == pixels@[i] / 256 && bytes@[2 * i
                + 1] == pixels@[i] % 256,
{
    let mut bytes: Vec<u8> = Vec::new();
    let mut i: usize = 0;
    while i < pixels.len()
        invariant
            0 <= i <= pixels@.len(),
            bytes@.len() == 2 * i,
            forall|k: int|
                0 <= k < i ==> #[trigger] bytes@[2 * k] == pixels@[k] / 256 && bytes@[2 * k + 1]
                    == pixels@[k] % 256,
        decreases pixels@.len() - i,
    {
        let p = pixels[i];
        assert((p >> 8u16) == p / 256 && (p & 0xFFu16) == p % 256) by (bit_vector);
        let ghost before = bytes@;
        bytes.push((p >> 8) as u8);
        bytes.push((p & 0xFF) as u8);
        assert forall|k: int| 0 <= k < i + 1 implies #[trigger] bytes@[2 * k] == pixels@[k] / 256
            && bytes@[2 * k + 1] == pixels@[k] % 256 by {
            if k < i {
                assert(bytes@[2 * k] == before[2 * k] && bytes@[2 * k + 1] == before[2 * k + 1]);
            }
        }
        i = i + 1;
    }
    bytes
}

/// 5x7 bitmap rows of digit `d` (0-9); each row's low 5 bits, MSB = left.
pub open spec fn digit_rows(d: int) -> Seq<u8> {
    if d == 0 {
        seq![0b01110u8, 0b10001, 0b10011, 0b10101, 0b11001, 0b10001, 0b01110]
    } else if d == 1 {
        seq![0b00100u8, 0b01100, 0b00100, 0b00100, 0b00100, 0b00100, 0b01110]
    } else if d == 2 {
        seq![0b01110u8, 0b10001, 0b00001, 0b00110, 0b01000, 0b10000, 0b11111]
    } else if d == 3 {
        seq![0b01110u8, 0b10001, 0b00001, 0b00110, 0b00001, 0b10001, 0b01110]
    } else if d == 4 {
        seq![0b00010u8, 0b00110, 0b01010, 0b10010, 0b11111, 0b00010, 0b00010]
    } else if d == 5 {
        seq![0b11111u8, 0b10000, 0b11110, 0b00001, 0b00001, 0b10001, 0b01110]
    } else if d == 6 {
        seq![0b00110u8, 0b01000, 0b10000, 0b11110, 0b10001, 0b10001, 0b01110]
    } else if d == 7 {
        seq![0b11111u8, 0b00001, 0b00010, 0b00100, 0b01000, 0b01000, 0b01000]
    } else if d == 8 {
        seq![0b01110u8, 0b10001, 0b10001, 0b01110, 0b10001, 0b10001, 0b01110]
    } else {
        seq![0b01110u8, 0b10001, 0b10001, 0b01111, 0b00001, 0b00010, 0b01100]
    }
}

/// 5x7 bitmap of a digit; digits above 9 draw as 9.
pub fn digit_bitmap(digit: u8) -> (rows: [u8; 7])
    ensures
        rows@ == digit_rows(if digit > 9 { 9 } else { digit as int }),
{
    let rows = match digit {
        0 => [0b01110, 0b10001, 0b10011, 0b10101, 0b11001, 0b10001, 0b01110],
        1 => [0b00100, 0b01100, 0b00100, 0b00100, 0b00100, 0b00100, 0b01110],
        2 => [0b01110, 0b10001, 0b00001, 0b00110, 0b01000, 0b10000, 0b11111],
        3 => [0b01110, 0b10001, 0b00001, 0b00110, 0b00001, 0b10001, 0b01110],
        4 => [0b00010, 0b00110, 0b01010, 0b10010, 0b11111, 0b00010, 0b00010],
        5 => [0b11111, 0b10000, 0b11110, 0b00001, 0b00001, 0b10001, 0b01110],
        6 => [0b00110, 0b01000, 0b10000, 0b11110, 0b10001, 0b10001, 0b01110],
        7 => [0b11111, 0b00001, 0b00010, 0b00100, 0b01000, 0b01000, 0b01000],
        8 => [0b01110, 0b10001, 0b10001, 0b01110, 0b10001, 0b10001, 0b01110],
        _ => [0b01110, 0b10001, 0b10001, 0b01111, 0b00001, 0b00010, 0b01100],
    };
    assert(rows@ =~= digit_rows(if digit > 9 { 9 } else { digit as int }));
    rows
}

/// Whether column `col` (0 = left) of a 5-wide bitmap row is lit.
pub open spec fn bit_lit(row: u8, col: int) -> bool {
    (row as int / pow2_col(4 - col)) % 2 == 1
}

/// 2 to the power of a bit position within a 5-wide row.
pub open spec fn pow2_col(k: int) -> int {
    if k == 0 {
        1
    } else if k == 1 {
        2
    } else if k == 2 {
        4
    } else if k == 3 {
        8
    } else {
        16
    }
}

fn column_lit(row: u8, col: u16) -> (lit: bool)
    requires
        col < 5,
    ensures
        lit == bit_lit(row, col as int),
{
    let shift = 4 - col;
    let lit = (row >> shift) & 1 == 1;
    proof {
        if col == 0 {
            assert(((row >> 4u16) & 1u8 == 1u8) == ((row as int / 16) % 2 == 1)) by (bit_vector);
        } else if col == 1 {
            assert(((row >> 3u16) & 1u8 == 1u8) == ((row as int / 8) % 2 == 1)) by (bit_vector);
        } else if col == 2 {
            assert(((row >> 2u16) & 1u8 == 1u8) == ((row as int / 4) % 2 == 1)) by (bit_vector);
        } else if col == 3 {
            assert(((row >> 1u16) & 1u8 == 1u8) == ((row as int / 2) % 2 == 1)) by (bit_vector);
        } else {
            assert(((row >> 0u16) & 1u8 == 1u8) == ((row as int / 1) % 2 == 1)) by (bit_vector);
        }
    }
    lit
}

/// One screen row of a digit drawn at `scale`: each bitmap column becomes
/// `scale` pixels of `fg` (lit) or `bg`.
pub fn digit_row_pixels(digit: u8, row: u16, scale: u16, fg: u16, bg: u16) -> (px: Vec<u16>)
    requires
        row < 7,
        scale > 0,
        5 * scale <= u16::MAX,
    ensures
        px@.len() == 5 * scale,
        forall|x: int|
            0 <= x < 5 * scale ==> #[trigger] px@[x] == (if bit_lit(
                digit_rows(if digit > 9 { 9 } else { digit as int })[row as int],
                x / scale as int,
            ) {
                fg
            } else {
                bg
            }),
{
    let bitmap = digit_bitmap(digit);
    let bits = bitmap[row as usize];
    let mut px: Vec<u16> = Vec::new();
    let mut col: u16 = 0;
    while col < 5
        invariant
            0 <= col <= 5,
            scale > 0,
            5 * scale <= u16::MAX,
            bits == digit_rows(if digit > 9 { 9 } else { digit as int })[row as int],
            px@.len() == col * scale,
            forall|x: int|
                0 <= x < col * scale ==> #[trigger] px@[x] == (if bit_lit(bits, x / scale as int) {
                    fg
                } else {
                    bg
                }),
        decreases 5 - col,
    {
        let color = if column_lit(bits, col) {
            fg
        } else {
            bg
        };
        let mut sx: u16 = 0;
        while sx < scale
            invariant
                0 <= col < 5,
                0 <= sx <= scale,
                scale > 0,
                5 * scale <= u16::MAX,
                color == (if bit_lit(bits, col as int) {
                    fg
                } else {
                    bg
                }),
                px@.len() == col * scale + sx,
                forall|x: int|
                    0 <= x < col * scale + sx ==> #[trigger] px@[x] == (if bit_lit(
                        bits,
                        x / scale as int,
                    ) {
                        fg
                    } else {
                        bg
                    }),
            decreases scale - sx,
        {
            proof {
                let x = col * scale + sx;
                assert(x / scale as int == col) by (nonlinear_arith)
                    requires
                        x == col * scale + sx,
                        0 <= sx < scale,
                ;
            }
            px.push(color);
            sx = sx + 1;
        }
        assert((col + 1) * scale == col * scale + scale) by (nonlinear_arith);
        col = col + 1;
    }
    px
}

/// Decimal digits of `n`, most significant first ([0] for zero).
pub open spec fn decimal_digits(n: nat) -> Seq<u8>
    decreases n,
{
    if n < 10 {
        seq![n as u8]
    } else {
        decimal_digits(n / 10).push((n % 10) as u8)
    }
}

/// Decimal digits of a value, most significant first ([0] for zero).
pub fn number_digits(value: u16) -> (digits: Vec<u8>)
    ensures
        digits@ == decimal_digits(value as nat),
    decreases value,
{
    if value < 10 {
        let mut d = Vec::new();
        d.push(value as u8);
        assert(d@ =~= decimal_digits(value as nat));
        d
    } else {
        let mut d = number_digits(value / 10);
        d.push((value % 10) as u8);
        d
    }
}


/// Scale of the big position digits: each bitmap pixel is 8x8 screen pixels.
pub const NUMBER_SCALE: u16 = 8;

/// Width of one big digit (5 bitmap columns).
pub const NUMBER_DIGIT_W: u16 = 40;

/// Height of the big digits (7 bitmap rows).
pub const NUMBER_DIGIT_H: u16 = 56;

/// Gap between two big digits.
pub const NUMBER_GAP: u16 = 16;

/// First screen row of the big number band, which is centred vertically.
pub const NUMBER_TOP: u16 = 92;

/// Left edge of a centred number of `n` big digits.
pub open spec fn number_start_x(n: int) -> int {
    (240 - (n * 40 + (n - 1) * 16)) / 2
}

/// Colour of screen column `x` in bitmap row `row` of a centred number
/// with these digits: a digit occupies 40 columns and is followed by a
/// 16-column gap; a lit bitmap pixel covers 8 columns.
pub open spec fn number_pixel(digits: Seq<u8>, row: int, x: int, fg: u16, bg: u16) -> u16 {
    let start = number_start_x(digits.len() as int);
    if x < start {
        bg
    } else {
        let rel = x - start;
        let di = rel / 56;
        let off = rel % 56;
        if di < digits.len() && off < 40 && bit_lit(digit_rows(digits[di] as int)[row], off / 8) {
            fg
        } else {
            bg
        }
    }
}

/// One full-width screen row (240 pixels) of the centred position number,
/// for bitmap row `row`. Numbers of five digits do not fit the screen and
/// are not drawn.
pub fn number_row_pixels(value: u16, row: u16, fg: u16, bg: u16) -> (px: Vec<u16>)
    requires
        value < 10000,
        row < 7,
    ensures
        px@.len() == 240,
        forall|x: int|
            0 <= x < 240 ==> #[trigger] px@[x] == number_pixel(
                decimal_digits(value as nat),
                row as int,
                x,
                fg,
                bg,
            ),
{
    let digits = number_digits(value);
    proof {
        lemma_decimal_digits_small(value as nat);
    }
    let n = digits.len() as u16;
    let total = n * NUMBER_DIGIT_W + (n - 1) * NUMBER_GAP;
    let start = (WIDTH - total) / 2;
    let mut px: Vec<u16> = Vec::new();
    let mut x: u16 = 0;
    while x < WIDTH
        invariant
            digits@ == decimal_digits(value as nat),
            1 <= digits@.len() <= 4,
            n == digits@.len(),
            row < 7,
            start == number_start_x(n as int),
            x <= 240,
            px@.len() == x,
            forall|k: int| 0 <= k < x ==> #[trigger] px@[k] == number_pixel(digits@, row as int, k, fg, bg),
        decreases 240 - x,
    {
        let mut color = bg;
        if x >= start {
            let rel = x - start;
            let di = (rel / 56) as usize;
            let off = rel % 56;
            if di < digits.len() && off < NUMBER_DIGIT_W {
                let bitmap = digit_bitmap(digits[di]);
                proof {
                    lemma_decimal_digits_below_ten(value as nat, di as int);
                }
                if column_lit(bitmap[row as usize], off / NUMBER_SCALE) {
                    color = fg;
                }
            }
        }
        px.push(color);
        x = x + 1;
    }
    px
}

proof fn lemma_decimal_digits_small(n: nat)
    requires
        n < 10000,
    ensures
        1 <= decimal_digits(n).len() <= 4,
{
    reveal_with_fuel(decimal_digits, 5);
    if n >= 10 {
        let a = n / 10;
        assert(decimal_digits(n).len() == decimal_digits(a).len() + 1);
        if a >= 10 {
            let b = a / 10;
            assert(decimal_digits(a).len() == decimal_digits(b).len() + 1);
            if b >= 10 {
                let c = b / 10;
                assert(c < 10);
                assert(decimal_digits(b).len() == decimal_digits(c).len() + 1);
                assert(decimal_digits(c).len() == 1);
            }
        }
    }
}

proof fn lemma_decimal_digits_below_ten(n: nat, i: int)
    requires
        0 <= i < decimal_digits(n).len(),
    ensures
        decimal_digits(n)[i] <= 9,
    decreases n,
{
    if n >= 10 {
        if i < decimal_digits(n / 10).len() {
            lemma_decimal_digits_below_ten(n / 10, i);
        }
    }
}

/// The window of a `w` x `h` rectangle at (`x`, `y`): its first and last
/// column and row, as the address commands take them.
pub fn rect_window(x: u16, y: u16, w: u16, h: u16) -> (win: (u16, u16, u16, u16))
    requires
        w > 0,
        h > 0,
        x + w <= u16::MAX,
        y + h <= u16::MAX,
    ensures
        win == (x, y, (x + w - 1) as u16, (y + h - 1) as u16),
{
    (x, y, x + (w - 1), y + (h - 1))
}

/// Bytes of RGB565 pixel data the display library hands over for the
/// area from (`x1`, `y1`) to (`x2`, `y2`), both corners included.
pub fn flush_byte_count(x1: u16, y1: u16, x2: u16, y2: u16) -> (n: usize)
    requires
        x1 <= x2,
        y1 <= y2,
        (x2 - x1 + 1) * (y2 - y1 + 1) * 2 <= usize::MAX,
    ensures
        n == (x2 - x1 + 1) * (y2 - y1 + 1) * 2,
{
    let w: usize = (x2 as usize + 1) - x1 as usize;
    let h: usize = (y2 as usize + 1) - y1 as usize;
    assert(w * h <= w * h * 2) by (nonlinear_arith);
    w * h * 2
}

} // verus!

//! The frame renderer: turns a grid of RGBA pixels into a text block. Every
//! output cell carries a truecolor foreground escape followed by a ramp glyph
//! and a reset; with color off the escape encodes the cell's gray level in
//! all three channels instead of its true color.

use vstd::prelude::*;
use vstd::string::StringExecFns;
use crate::luminance::{lum_spec, luma};
use crate::ramp::{ramp_char, ramp_index, ramp_len, map_to_glyph, lemma_ramp_index_in_range};

verus! {

/// The decimal digit `d` as a character.
pub open spec fn digit_char(d: int) -> char {
    if d == 0 {
        '0'
    } else if d == 1 {
        '1'
    } else if d == 2 {
        '2'
    } else if d == 3 {
        '3'
    } else if d == 4 {
        '4'
    } else if d == 5 {
        '5'
    } else if d == 6 {
        '6'
    } else if d == 7 {
        '7'
    } else if d == 8 {
        '8'
    } else {
        '9'
    }
}

/// Decimal rendering of a byte value, without leading zeros.
pub open spec fn dec_chars(n: int) -> Seq<char> {
    if n < 10 {
        seq![digit_char(n)]
    } else if n < 100 {
        seq![digit_char(n / 10), digit_char(n % 10)]
    } else {
        seq![digit_char(n / 100), digit_char((n / 10) % 10), digit_char(n % 10)]
    }
}

/// Opening of a truecolor foreground escape: ESC [ 3 8 ; 2 ;
pub open spec fn csi_prefix() -> Seq<char> {
    seq!['\u{1b}', '[', '3', '8', ';', '2', ';']
}

/// The escape that resets all display attributes: ESC [ 0 m
pub open spec fn sgr_reset() -> Seq<char> {
    seq!['\u{1b}', '[', '0', 'm']
}

/// One output cell: a truecolor escape carrying (r, g, b), the glyph, and a
/// reset.
pub open spec fn color_token(r: int, g: int, b: int, glyph: Seq<char>) -> Seq<char> {
    csi_prefix() + dec_chars(r) + seq![';'] + dec_chars(g) + seq![';'] + dec_chars(b) + seq![
        'm',
    ] + glyph + sgr_reset()
}

/// The text emitted for one pixel: its brightness selects the ramp glyph, and
/// the embedded color is the pixel's own when colorized, else its gray level
/// replicated across the three channels.
pub open spec fn pixel_token(r: u8, g: u8, b: u8, complex: bool, colorized: bool) -> Seq<char> {
    let l = lum_spec(r as int, g as int, b as int);
    let cr = if colorized {
        r as int
    } else {
        l
    };
    let cg = if colorized {
        g as int
    } else {
        l
    };
    let cb = if colorized {
        b as int
    } else {
        l
    };
    color_token(cr, cg, cb, seq![ramp_char(complex, ramp_index(l, ramp_len(complex)))])
}

/// The decimal digit `d` as a one-character string.
fn digit_str(d: u8) -> (s: &'static str)
    requires
        d < 10,
    ensures
        s@ == seq![digit_char(d as int)],
{
    if d == 0 {
        proof {
            reveal_strlit("0");
        }
        assert("0"@ =~= seq![digit_char(d as int)]);
        "0"
    } else if d == 1 {
        proof {
            reveal_strlit("1");
        }
        assert("1"@ =~= seq![digit_char(d as int)]);
        "1"
    } else if d == 2 {
        proof {
            reveal_strlit("2");
        }
        assert("2"@ =~= seq![digit_char(d as int)]);
        "2"
    } else if d == 3 {
        proof {
            reveal_strlit("3");
        }
        assert("3"@ =~= seq![digit_char(d as int)]);
        "3"
    } else if d == 4 {
        proof {
            reveal_strlit("4");
        }
        assert("4"@ =~= seq![digit_char(d as int)]);
        "4"
    } else if d == 5 {
        proof {
            reveal_strlit("5");
        }
        assert("5"@ =~= seq![digit_char(d as int)]);
        "5"
    } else if d == 6 {
        proof {
            reveal_strlit("6");
        }
        assert("6"@ =~= seq![digit_char(d as int)]);
        "6"
    } else if d == 7 {
        proof {
            reveal_strlit("7");
        }
        assert("7"@ =~= seq![digit_char(d as int)]);
        "7"
    } else if d == 8 {
        proof {
            reveal_strlit("8");
        }
        assert("8"@ =~= seq![digit_char(d as int)]);
        "8"
    } else {
        proof {
            reveal_strlit("9");
        }
        assert("9"@ =~= seq![digit_char(d as int)]);
        "9"
    }
}

/// Appends the decimal rendering of `n` to `s`.
fn push_decimal(s: &mut String, n: u8)
    ensures
        final(s)@ == old(s)@ + dec_chars(n as int),
{
    if n >= 100 {
        s.append(digit_str(n / 100));
        s.append(digit_str((n / 10) % 10));
        s.append(digit_str(n % 10));
        assert(s@ =~= old(s)@ + dec_chars(n as int));
    } else if n >= 10 {
        s.append(digit_str(n / 10));
        s.append(digit_str(n % 10));
        assert(s@ =~= old(s)@ + dec_chars(n as int));
    } else {
        s.append(digit_str(n));
        assert(s@ =~= old(s)@ + dec_chars(n as int));
    }
}

/// Renders one pixel as its escape-wrapped ramp glyph.
pub fn process_pixel(r: u8, g: u8, b: u8, complex: bool, is_colorized: bool) -> (s: String)
    ensures
        s@ == pixel_token(r, g, b, complex, is_colorized),
{
    let l = luma((r, g, b));
    let cr = if is_colorized {
        r
    } else {
        l
    };
    let cg = if is_colorized {
        g
    } else {
        l
    };
    let cb = if is_colorized {
        b
    } else {
        l
    };
    let mut s = String::new();
    proof {
        reveal_strlit("\u{1b}[38;2;");
        reveal_strlit(";");
        reveal_strlit("m");
        reveal_strlit("\u{1b}[0m");
    }
    assert("\u{1b}[38;2;"@ =~= csi_prefix());
    assert(";"@ =~= seq![';']);
    assert("m"@ =~= seq!['m']);
    assert("\u{1b}[0m"@ =~= sgr_reset());
    s.append("\u{1b}[38;2;");
    push_decimal(&mut s, cr);
    s.append(";");
    push_decimal(&mut s, cg);
    s.append(";");
    push_decimal(&mut s, cb);
    s.append("m");
    s.append(map_to_glyph(l, complex));
    s.append("\u{1b}[0m");
    assert(s@ =~= pixel_token(r, g, b, complex, is_colorized));
    s
}

/// The token of the cell at column `x`, row `y` of a grid of RGBA samples
/// stored row-major, four bytes per pixel.
pub open spec fn cell_token(
    px: Seq<u8>,
    w: int,
    x: int,
    y: int,
    complex: bool,
    colorized: bool,
) -> Seq<char> {
    pixel_token(
        px[4 * (y * w + x)],
        px[4 * (y * w + x) + 1],
        px[4 * (y * w + x) + 2],
        complex,
        colorized,
    )
}

/// The first `n` cell tokens of row `y`, concatenated.
pub open spec fn row_prefix(
    px: Seq<u8>,
    w: int,
    y: int,
    complex: bool,
    colorized: bool,
    n: int,
) -> Seq<char>
    decreases n,
{
    if n <= 0 {
        Seq::empty()
    } else {
        row_prefix(px, w, y, complex, colorized, n - 1) + cell_token(
            px,
            w,
            n - 1,
            y,
            complex,
            colorized,
        )
    }
}

/// The first `n` rows of the rendered grid, each of `w` cells and closed by a
/// newline.
pub open spec fn rows_prefix(
    px: Seq<u8>,
    w: int,
    complex: bool,
    colorized: bool,
    n: int,
) -> Seq<char>
    decreases n,
{
    if n <= 0 {
        Seq::empty()
    } else {
        rows_prefix(px, w, complex, colorized, n - 1) + row_prefix(
            px,
            w,
            n - 1,
            complex,
            colorized,
            w,
        ) + seq!['\n']
    }
}

/// The whole rendered text block for a `w` by `h` grid of RGBA samples: `h`
/// rows of `w` cell tokens, every row closed by a newline and no separator
/// beyond that after the last row.
pub open spec fn frame_chars(px: Seq<u8>, w: int, h: int, complex: bool, colorized: bool) -> Seq<
    char,
> {
    rows_prefix(px, w, complex, colorized, h)
}

/// Renders every cell of an already resampled RGBA grid, row by row.
pub fn render_cells(pixels: &Vec<u8>, out_w: usize, out_h: usize, complex: bool, colorized: bool) -> (s:
    String)
    requires
        1 <= out_w,
        1 <= out_h,
        pixels@.len() == 4 * out_w * out_h,
    ensures
        s@ == frame_chars(pixels@, out_w as int, out_h as int, complex, colorized),
{
    let mut s = String::new();
    proof {
        reveal_strlit("\n");
    }
    assert("\n"@ =~= seq!['\n']);
    let total: usize = pixels.len();
    let mut y: usize = 0;
    while y < out_h
        invariant
            y <= out_h,
            1 <= out_w,
            1 <= out_h,
            pixels@.len() == 4 * out_w * out_h,
            pixels@.len() <= usize::MAX,
            "\n"@ =~= seq!['\n'],
            s@ == rows_prefix(pixels@, out_w as int, complex, colorized, y as int),
        decreases out_h - y,
    {
        let ghost row_start = s@;
        let mut x: usize = 0;
        while x < out_w
            invariant
                x <= out_w,
                y < out_h,
                1 <= out_w,
                1 <= out_h,
                pixels@.len() == 4 * out_w * out_h,
                pixels@.len() <= usize::MAX,
                s@ == row_start + row_prefix(pixels@, out_w as int, y as int, complex, colorized, x as int),
            decreases out_w - x,
        {
            proof {
                assert(y * out_w + x < out_w * out_h) by (nonlinear_arith)
                    requires
                        x < out_w && y < out_h,
                ;
                assert(4 * (out_w * out_h) == 4 * out_w * out_h) by (nonlinear_arith);
                assert(y * out_w <= y * out_w + x);
                assert(4 * (y * out_w + x) + 3 < 4 * (out_w * out_h));
            }
            let base: usize = 4 * (y * out_w + x);
            let r = pixels[base];
            let g = pixels[base + 1];
            let b = pixels[base + 2];
            let tok = process_pixel(r, g, b, complex, colorized);
            s.append(tok.as_str());
            assert(s@ =~= row_start + row_prefix(
                pixels@,
                out_w as int,
                y as int,
                complex,
                colorized,
                x + 1,
            ));
            x = x + 1;
        }
        s.append("\n");
        assert(s@ =~= rows_prefix(pixels@, out_w as int, complex, colorized, y + 1));
        y = y + 1;
    }
    s
}

/// Output width for a column budget: the budget itself, but never below one.
pub open spec fn width_spec(c: int) -> int {
    if c < 1 {
        1
    } else {
        c
    }
}

/// Output height preserving aspect ratio under the vertical compression
/// factor of one half: the nearest integer to h / w * c / 2 (ties rounding
/// up), but never below one.
pub open spec fn height_spec(w: int, h: int, c: int) -> int {
    let q = (h * c + w) / (2 * w);
    if q < 1 {
        1
    } else {
        q
    }
}

/// Number of rows the renderer gives a source of `w` by `h` pixels under a
/// column budget of `c`.
pub fn output_height(w: u32, h: u32, c: u32) -> (oh: u64)
    requires
        1 <= w,
    ensures
        oh as int == height_spec(w as int, h as int, c as int),
{
    proof {
        assert((h as int) * (c as int) <= 0xffff_ffff * 0xffff_ffff) by (nonlinear_arith)
            requires
                h <= 0xffff_ffffu32 && c <= 0xffff_ffffu32,
        ;
    }
    let num: u64 = (h as u64) * (c as u64) + (w as u64);
    let q: u64 = num / (2 * (w as u64));
    if q < 1 {
        1
    } else {
        q
    }
}

/// Before clamping, the computed row count `q` is the nearest integer to
/// h * c / (2 * w), with halves rounded up: h * c lies within w of 2 * w * q.
pub proof fn lemma_output_height_rounds(w: int, h: int, c: int)
    requires
        1 <= w,
        1 <= h,
        1 <= c,
    ensures
        ({
            let q = (h * c + w) / (2 * w);
            2 * w * q - w <= h * c && h * c < 2 * w * q + w
        }),
{
    let q = (h * c + w) / (2 * w);
    vstd::arithmetic::div_mod::lemma_fundamental_div_mod(h * c + w, 2 * w);
    vstd::arithmetic::div_mod::lemma_mod_bound(h * c + w, 2 * w);
    assert(h * c + w == (2 * w) * q + (h * c + w) % (2 * w));
    assert((2 * w) * q == 2 * w * q) by (nonlinear_arith);
}

/// The RGBA samples that Catmull-Rom resampling of a `w` by `h` grid down or
/// up to `ow` by `oh` produces: a fixed function of the source samples and
/// the four dimensions alone.
pub uninterp spec fn catmull_resample(px: Seq<u8>, w: int, h: int, ow: int, oh: int) -> Seq<u8>;

/// Relies on image::imageops::resize with FilterType::CatmullRom: it samples
/// the source grid alone, deterministically, and returns a buffer of exactly
/// `ow` by `oh` RGBA pixels; image::RgbaImage::from_raw accepts a buffer of
/// exactly 4 * w * h bytes.
#[verifier::external_body]
fn resample_rgba(pixels: &Vec<u8>, w: u32, h: u32, ow: u32, oh: u32) -> (r: Vec<u8>)
    requires
        1 <= w,
        1 <= h,
        1 <= ow,
        1 <= oh,
        pixels@.len() == 4 * w * h,
        4 * ow * oh <= usize::MAX,
    ensures
        r@ == catmull_resample(pixels@, w as int, h as int, ow as int, oh as int),
        r@.len() == 4 * ow * oh,
{
    let img: image::RgbaImage = image::RgbaImage::from_raw(w, h, pixels.clone()).unwrap();
    let out = image::imageops::resize(&img, ow, oh, image::imageops::FilterType::CatmullRom);
    out.into_raw()
}

/// The text block rendered for a source grid under a configuration: the grid
/// is resampled to the output dimensions and every resampled cell becomes an
/// escape-wrapped ramp glyph.
pub open spec fn rendered_frame_spec(px: Seq<u8>, w: int, h: int, cfg: crate::config::RenderConfig) -> Seq<
    char,
> {
    let ow = width_spec(cfg.output_columns as int);
    let oh = height_spec(w, h, ow);
    frame_chars(
        catmull_resample(px, w, h, ow, oh),
        ow,
        oh,
        cfg.use_complex_charset,
        cfg.use_color,
    )
}

/// Renders one source frame: computes the output dimensions from the column
/// budget (width at least one, height preserving aspect ratio at half
/// vertical resolution, at least one row), resamples the source to exactly
/// those dimensions, and renders every resampled cell.
pub fn render_frame(pixels: &Vec<u8>, w: u32, h: u32, cfg: &crate::config::RenderConfig) -> (s:
    String)
    requires
        1 <= w,
        1 <= h,
        pixels@.len() == 4 * w * h,
        height_spec(w as int, h as int, width_spec(cfg.output_columns as int)) <= u32::MAX,
        4 * width_spec(cfg.output_columns as int) * height_spec(
            w as int,
            h as int,
            width_spec(cfg.output_columns as int),
        ) <= usize::MAX,
    ensures
        s@ == rendered_frame_spec(pixels@, w as int, h as int, *cfg),
{
    let c = cfg.output_columns;
    let ow: u32 = if c < 1 {
        1
    } else {
        c
    };
    let oh64: u64 = output_height(w, h, ow);
    let oh: u32 = oh64 as u32;
    proof {
        assert(4 * (ow as int) * (oh as int) <= usize::MAX);
        assert(4 * ow * oh == 4 * (ow as int) * (oh as int)) by (nonlinear_arith);
    }
    let resampled = resample_rgba(pixels, w, h, ow, oh);
    let sw: usize = ow as usize;
    let sh: usize = oh as usize;
    proof {
        assert(4 * sw * sh == 4 * (ow as int) * (oh as int)) by (nonlinear_arith)
            requires
                sw == ow as int && sh == oh as int,
        ;
    }
    render_cells(&resampled, sw, sh, cfg.use_complex_charset, cfg.use_color)
}

} // verus!

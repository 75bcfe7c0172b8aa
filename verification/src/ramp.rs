//! Glyph ramps: ordered sequences of visual symbols, densest (darkest) first,
//! sparsest (lightest) last. A brightness value selects a glyph by the index
//! formula floor(l * (len - 1) / 255), which maps the whole 0..=255 range onto
//! the whole index range without ever going out of bounds.

use vstd::prelude::*;
use vstd::arithmetic::div_mod::lemma_div_is_ordered;
use vstd::arithmetic::mul::lemma_mul_inequality;

verus! {

/// Number of glyphs in the selected ramp: the simple ASCII ramp has 11,
/// the complex block-shading ramp has 9.
pub open spec fn ramp_len(complex: bool) -> int {
    if complex {
        9
    } else {
        11
    }
}

/// The glyph at position `i` of the selected ramp.
pub open spec fn ramp_char(complex: bool, i: int) -> char {
    if complex {
        if i == 0 {
            '\u{2588}'
        } else if i == 1 {
            '\u{2593}'
        } else if i == 2 {
            '\u{2592}'
        } else if i == 3 {
            '\u{2591}'
        } else if i == 4 {
            '#'
        } else if i == 5 {
            '+'
        } else if i == 6 {
            '-'
        } else if i == 7 {
            '.'
        } else {
            ' '
        }
    } else {
        if i == 0 {
            '@'
        } else if i == 1 {
            '%'
        } else if i == 2 {
            '$'
        } else if i == 3 {
            '#'
        } else if i == 4 {
            '*'
        } else if i == 5 {
            '+'
        } else if i == 6 {
            '='
        } else if i == 7 {
            '-'
        } else if i == 8 {
            ':'
        } else if i == 9 {
            '.'
        } else {
            ' '
        }
    }
}

/// The selected ramp as a sequence of glyphs.
pub open spec fn ramp_seq(complex: bool) -> Seq<char> {
    Seq::new(ramp_len(complex) as nat, |i: int| ramp_char(complex, i))
}

/// Ramp position selected by a brightness value, for a ramp of `len` glyphs.
pub open spec fn ramp_index(l: int, len: int) -> int {
    (l * (len - 1)) / 255
}

/// The index formula never leaves the ramp: for any brightness byte and any
/// ramp of at least two glyphs, the selected position is a valid index.
pub proof fn lemma_ramp_index_in_range(l: int, len: int)
    requires
        0 <= l <= 255,
        2 <= len,
    ensures
        0 <= ramp_index(l, len) < len,
{
    lemma_mul_inequality(l, 255, len - 1);
    lemma_div_is_ordered(l * (len - 1), 255 * (len - 1), 255);
    assert((255 * (len - 1)) / 255 == len - 1) by (nonlinear_arith)
        requires
            len >= 2,
    ;
    assert(l * (len - 1) >= 0) by (nonlinear_arith)
        requires
            l >= 0 && len >= 2,
    ;
}

/// The darkest brightness selects the first glyph and the brightest selects
/// the last, for every ramp of at least two glyphs.
pub proof fn lemma_ramp_index_endpoints(len: int)
    requires
        2 <= len,
    ensures
        ramp_index(0, len) == 0,
        ramp_index(255, len) == len - 1,
{
    assert((255 * (len - 1)) / 255 == len - 1) by (nonlinear_arith)
        requires
            len >= 2,
    ;
}

/// The index mapping is monotonic: a brighter value never selects a glyph
/// nearer the dark end of the ramp.
pub proof fn lemma_ramp_index_monotonic(l1: int, l2: int, len: int)
    requires
        0 <= l1 <= l2,
        2 <= len,
    ensures
        ramp_index(l1, len) <= ramp_index(l2, len),
{
    lemma_mul_inequality(l1, l2, len - 1);
    lemma_div_is_ordered(l1 * (len - 1), l2 * (len - 1), 255);
}

/// The whole selected ramp as one string, darkest glyph first: what the
/// usage text shows for each charset.
pub fn ramp_string(complex: bool) -> (s: String)
    ensures
        s@ == ramp_seq(complex),
{
    if complex {
        proof {
            reveal_strlit("\u{2588}\u{2593}\u{2592}\u{2591}#+-. ");
        }
        assert("\u{2588}\u{2593}\u{2592}\u{2591}#+-. "@ =~= ramp_seq(true));
        "\u{2588}\u{2593}\u{2592}\u{2591}#+-. ".to_owned()
    } else {
        proof {
            reveal_strlit("@%$#*+=-:. ");
        }
        assert("@%$#*+=-:. "@ =~= ramp_seq(false));
        "@%$#*+=-:. ".to_owned()
    }
}

/// Selects the glyph for a brightness value from the configured ramp.
pub fn map_to_glyph(l: u8, complex: bool) -> (g: &'static str)
    ensures
        g@ == seq![ramp_char(complex, ramp_index(l as int, ramp_len(complex)))],
{
    proof {
        lemma_ramp_index_in_range(l as int, ramp_len(complex));
    }
    if complex {
        let idx: usize = (l as usize * 8) / 255;
        if idx == 0 {
            proof {
                reveal_strlit("\u{2588}");
            }
            assert("\u{2588}"@ =~= seq![ramp_char(complex, ramp_index(l as int, 9))]);
            "\u{2588}"
        } else if idx == 1 {
            proof {
                reveal_strlit("\u{2593}");
            }
            assert("\u{2593}"@ =~= seq![ramp_char(complex, ramp_index(l as int, 9))]);
            "\u{2593}"
        } else if idx == 2 {
            proof {
                reveal_strlit("\u{2592}");
            }
            assert("\u{2592}"@ =~= seq![ramp_char(complex, ramp_index(l as int, 9))]);
            "\u{2592}"
        } else if idx == 3 {
            proof {
                reveal_strlit("\u{2591}");
            }
            assert("\u{2591}"@ =~= seq![ramp_char(complex, ramp_index(l as int, 9))]);
            "\u{2591}"
        } else if idx == 4 {
            proof {
                reveal_strlit("#");
            }
            assert("#"@ =~= seq![ramp_char(complex, ramp_index(l as int, 9))]);
            "#"
        } else if idx == 5 {
            proof {
                reveal_strlit("+");
            }
            assert("+"@ =~= seq![ramp_char(complex, ramp_index(l as int, 9))]);
            "+"
        } else if idx == 6 {
            proof {
                reveal_strlit("-");
            }
            assert("-"@ =~= seq![ramp_char(complex, ramp_index(l as int, 9))]);
            "-"
        } else if idx == 7 {
            proof {
                reveal_strlit(".");
            }
            assert("."@ =~= seq![ramp_char(complex, ramp_index(l as int, 9))]);
            "."
        } else {
            proof {
                reveal_strlit(" ");
            }
            assert(" "@ =~= seq![ramp_char(complex, ramp_index(l as int, 9))]);
            " "
        }
    } else {
        let idx: usize = (l as usize * 10) / 255;
        if idx == 0 {
            proof {
                reveal_strlit("@");
            }
            assert("@"@ =~= seq![ramp_char(complex, ramp_index(l as int, 11))]);
            "@"
        } else if idx == 1 {
            proof {
                reveal_strlit("%");
            }
            assert("%"@ =~= seq![ramp_char(complex, ramp_index(l as int, 11))]);
            "%"
        } else if idx == 2 {
            proof {
                reveal_strlit("$");
            }
            assert("$"@ =~= seq![ramp_char(complex, ramp_index(l as int, 11))]);
            "$"
        } else if idx == 3 {
            proof {
                reveal_strlit("#");
            }
            assert("#"@ =~= seq![ramp_char(complex, ramp_index(l as int, 11))]);
            "#"
        } else if idx == 4 {
            proof {
                reveal_strlit("*");
            }
            assert("*"@ =~= seq![ramp_char(complex, ramp_index(l as int, 11))]);
            "*"
        } else if idx == 5 {
            proof {
                reveal_strlit("+");
            }
            assert("+"@ =~= seq![ramp_char(complex, ramp_index(l as int, 11))]);
            "+"
        } else if idx == 6 {
            proof {
                reveal_strlit("=");
            }
            assert("="@ =~= seq![ramp_char(complex, ramp_index(l as int, 11))]);
            "="
        } else if idx == 7 {
            proof {
                reveal_strlit("-");
            }
            assert("-"@ =~= seq![ramp_char(complex, ramp_index(l as int, 11))]);
            "-"
        } else if idx == 8 {
            proof {
                reveal_strlit(":");
            }
            assert(":"@ =~= seq![ramp_char(complex, ramp_index(l as int, 11))]);
            ":"
        } else if idx == 9 {
            proof {
                reveal_strlit(".");
            }
            assert("."@ =~= seq![ramp_char(complex, ramp_index(l as int, 11))]);
            "."
        } else {
            proof {
                reveal_strlit(" ");
            }
            assert(" "@ =~= seq![ramp_char(complex, ramp_index(l as int, 11))]);
            " "
        }
    }
}

} // verus!

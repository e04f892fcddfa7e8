//! Colors of the symbols and the pixel layout of a rendered frame.

use vstd::prelude::*;

verus! {

/// An 8-bit-per-channel color.
#[derive(Clone, Copy, Debug, PartialEq, Eq, Structural)]
pub struct Color {
    pub r: u8,
    pub g: u8,
    pub b: u8,
}

/// The number of colors in the built-in palette.
pub const PALETTE_SIZE: usize = 10;

/// The built-in palette, one color per symbol: black, red, green, blue,
/// white, cyan, magenta, yellow, light gray, gray.
pub open spec fn default_colors() -> Seq<Color> {
    seq![
        Color { r: 0, g: 0, b: 0 },
        Color { r: 255, g: 0, b: 0 },
        Color { r: 0, g: 255, b: 0 },
        Color { r: 0, g: 0, b: 255 },
        Color { r: 255, g: 255, b: 255 },
        Color { r: 0, g: 255, b: 255 },
        Color { r: 255, g: 0, b: 255 },
        Color { r: 255, g: 255, b: 0 },
        Color { r: 170, g: 170, b: 170 },
        Color { r: 85, g: 85, b: 85 },
    ]
}

/// Byte `channel` of a pixel in BGR order: blue first, red last.
pub open spec fn bgr_byte(c: Color, channel: int) -> u8 {
    if channel == 0 {
        c.b
    } else if channel == 1 {
        c.g
    } else {
        c.r
    }
}

/// The frame showing `tape`: three bytes per cell, in tape order, each cell
/// in BGR order, colored by `palette[symbol]`.
pub open spec fn image_of(tape: Seq<u8>, palette: Seq<Color>) -> Seq<u8> {
    Seq::new(tape.len() * 3, |k: int| bgr_byte(palette[tape[k / 3] as int], k % 3))
}

/// Every symbol below `symbols` has a color in `palette`.
pub open spec fn covers(palette: Seq<Color>, symbols: nat) -> bool {
    palette.len() >= symbols
}

/// The built-in palette.
pub fn default_palette() -> (r: Vec<Color>)
    ensures
        r@ == default_colors(),
{
    let r = vec![
        Color { r: 0, g: 0, b: 0 },
        Color { r: 255, g: 0, b: 0 },
        Color { r: 0, g: 255, b: 0 },
        Color { r: 0, g: 0, b: 255 },
        Color { r: 255, g: 255, b: 255 },
        Color { r: 0, g: 255, b: 255 },
        Color { r: 255, g: 0, b: 255 },
        Color { r: 255, g: 255, b: 0 },
        Color { r: 170, g: 170, b: 170 },
        Color { r: 85, g: 85, b: 85 },
    ];
    assert(r@ =~= default_colors());
    r
}

/// The built-in palette when it has a color for each of `symbols` symbols;
/// `None` when there are more symbols than colors.
pub fn load_palette(symbols: u8) -> (r: Option<Vec<Color>>)
    ensures
        r is Some <==> symbols as nat <= PALETTE_SIZE,
        r matches Some(p) ==> p@ == default_colors() && covers(p@, symbols as nat),
{
    let palette = default_palette();
    if palette.len() < symbols as usize {
        None
    } else {
        Some(palette)
    }
}

/// A frame is three bytes per cell, and a blank tape (all symbol 0) renders
/// every cell as `palette[0]` in BGR order.
pub proof fn lemma_blank_frame(tape: Seq<u8>, palette: Seq<Color>)
    requires
        palette.len() >= 1,
        forall|i: int| 0 <= i < tape.len() ==> tape[i] == 0,
    ensures
        image_of(tape, palette).len() == tape.len() * 3,
        forall|c: int|
            0 <= c < tape.len() ==> {
                &&& #[trigger] image_of(tape, palette)[3 * c] == palette[0].b
                &&& image_of(tape, palette)[3 * c + 1] == palette[0].g
                &&& image_of(tape, palette)[3 * c + 2] == palette[0].r
            },
{
    let img = image_of(tape, palette);
    assert forall|c: int| 0 <= c < tape.len() implies {
        &&& #[trigger] img[3 * c] == palette[0].b
        &&& img[3 * c + 1] == palette[0].g
        &&& img[3 * c + 2] == palette[0].r
    } by {
        assert((3 * c) / 3 == c && (3 * c) % 3 == 0);
        assert((3 * c + 1) / 3 == c && (3 * c + 1) % 3 == 1);
        assert((3 * c + 2) / 3 == c && (3 * c + 2) % 3 == 2);
        assert(tape[c] == 0);
    }
}

} // verus!

use vstd::prelude::*;
use vstd::arithmetic::div_mod::{lemma_fundamental_div_mod, lemma_fundamental_div_mod_converse};

verus! {

/// A scaling ratio, held exactly as a numerator over a denominator.
#[derive(Clone, Copy, Debug, PartialEq, Eq, Structural)]
pub struct Ratio {
    pub num: u32,
    pub den: u32,
}

impl Ratio {
    pub fn new(num: u32, den: u32) -> (ratio: Ratio)
        ensures
            ratio.num == num,
            ratio.den == den,
    {
        Ratio { num, den }
    }

    /// The default width ratio: thirty-three hundredths of the display width.
    pub fn default_width() -> (ratio: Ratio)
        ensures
            ratio == (Ratio { num: 33, den: 100 }),
    {
        Ratio { num: 33, den: 100 }
    }

    /// The default height ratio: one fifteenth of the display height.
    pub fn default_height() -> (ratio: Ratio)
        ensures
            ratio == (Ratio { num: 1, den: 15 }),
    {
        Ratio { num: 1, den: 15 }
    }
}

/// The overlay window rectangle: its size, and the position of its top-left
/// corner on the display. Fully determined by the display metrics and the
/// two ratios; recomputed on demand, never persisted.
#[derive(Clone, Copy, Debug, PartialEq, Eq, Structural)]
pub struct WindowGeometry {
    pub width: u64,
    pub height: u64,
    pub x: i64,
    pub y: i64,
}

/// One display extent scaled by a ratio, rounded down.
pub open spec fn scaled(extent: int, ratio: Ratio) -> int {
    (extent * (ratio.num as int)) / (ratio.den as int)
}

/// The geometry contract. `x` centers the window horizontally: as reals,
/// floor(w/2 - width/2) equals floor((w - width)/2), and on `int` the
/// division by the positive constant 2 rounds toward minus infinity.
/// `y` pins the window's bottom edge to the bottom of the display, exactly.
pub open spec fn geometry_matches(
    g: WindowGeometry,
    display_width: int,
    display_height: int,
    width_ratio: Ratio,
    height_ratio: Ratio,
) -> bool {
    &&& g.width == scaled(display_width, width_ratio)
    &&& g.height == scaled(display_height, height_ratio)
    &&& g.x == (display_width - g.width as int) / 2
    &&& g.y == display_height - g.height as int
}

/// Computes the overlay window's size and position from the display's
/// dimensions and the two ratios. Pure and deterministic. No clamping is
/// performed: a ratio above one yields a rectangle wider or taller than the
/// display, with a negative `x` or `y`, reproducibly.
///
/// The one bound asked of the caller, beyond nonzero denominators, is that
/// the resulting `y` fit its 64-bit signed field; every ratio at or below
/// one satisfies it trivially.
pub fn compute_geometry(
    display_width: u32,
    display_height: u32,
    width_ratio: Ratio,
    height_ratio: Ratio,
) -> (g: WindowGeometry)
    requires
        width_ratio.den != 0,
        height_ratio.den != 0,
        display_height as int - scaled(display_height as int, height_ratio) >= i64::MIN as int,
    ensures
        geometry_matches(g, display_width as int, display_height as int, width_ratio, height_ratio),
{
    let w: u64 = display_width as u64;
    let h: u64 = display_height as u64;
    let wn: u64 = width_ratio.num as u64;
    let wd: u64 = width_ratio.den as u64;
    let hn: u64 = height_ratio.num as u64;
    let hd: u64 = height_ratio.den as u64;
    proof {
        assert(w * wn <= 0xFFFF_FFFE_0000_0001) by (nonlinear_arith)
            requires
                w <= 0xFFFF_FFFF,
                wn <= 0xFFFF_FFFF,
        ;
        assert(h * hn <= 0xFFFF_FFFE_0000_0001) by (nonlinear_arith)
            requires
                h <= 0xFFFF_FFFF,
                hn <= 0xFFFF_FFFF,
        ;
    }
    let width: u64 = w * wn / wd;
    let height: u64 = h * hn / hd;

    let x: i64 = if w >= width {
        ((w - width) / 2) as i64
    } else {
        let shortfall: u64 = width - w;
        proof {
            let a = shortfall as int;
            lemma_fundamental_div_mod(a + 1, 2);
            lemma_fundamental_div_mod_converse(-a, 2, -((a + 1) / 2), 1 - ((a + 1) % 2));
        }
        -(((shortfall + 1) / 2) as i64)
    };

    let y_wide: i128 = (display_height as i128) - (height as i128);
    proof {
        assert(i64::MIN as i128 <= y_wide <= i64::MAX as i128);
    }
    let y: i64 = y_wide as i64;

    WindowGeometry { width, height, x, y }
}

/// Geometry is a pure function of its inputs: any two rectangles that meet
/// the contract for the same display metrics and ratios are identical, so
/// computing the geometry twice with identical inputs yields identical
/// output.
pub proof fn lemma_geometry_deterministic(
    g1: WindowGeometry,
    g2: WindowGeometry,
    display_width: int,
    display_height: int,
    width_ratio: Ratio,
    height_ratio: Ratio,
)
    requires
        geometry_matches(g1, display_width, display_height, width_ratio, height_ratio),
        geometry_matches(g2, display_width, display_height, width_ratio, height_ratio),
    ensures
        g1 == g2,
{
}

} // verus!

use vstd::prelude::*;

verus! {

/// Radius of the marker circle, in logical pixel units.
pub const DOT_RADIUS: u32 = 2;

/// Width of the marker circle's outline stroke, in logical pixel units.
pub const DOT_STROKE_WIDTH: u32 = 1;

/// One colour with 8 bits per channel.
#[derive(Clone, Copy, PartialEq, Eq, Structural, Debug)]
pub struct Rgba {
    pub r: u8,
    pub g: u8,
    pub b: u8,
    pub a: u8,
}

/// Everything the rasterizer needs to draw one frame's marker: a circle of
/// fixed radius centered in the window, filled with semi-transparent white
/// and outlined with a semi-transparent black stroke.
#[derive(Clone, Copy, PartialEq, Eq, Structural, Debug)]
pub struct DotSpec {
    pub center_x: u32,
    pub center_y: u32,
    pub radius: u32,
    pub fill: Rgba,
    pub stroke: Rgba,
    pub stroke_width: u32,
}

/// The marker for a window of the given inner size. The circle is centered
/// at (width / 2, height / 2) whatever the window size is; radius, colours
/// and stroke width are fixed.
pub fn dot_for_window(width: u32, height: u32) -> (d: DotSpec)
    ensures
        d.center_x == width / 2,
        d.center_y == height / 2,
        d.radius == DOT_RADIUS,
        d.fill == (Rgba { r: 255, g: 255, b: 255, a: 128 }),
        d.stroke == (Rgba { r: 0, g: 0, b: 0, a: 128 }),
        d.stroke_width == DOT_STROKE_WIDTH,
{
    DotSpec {
        center_x: width / 2,
        center_y: height / 2,
        radius: DOT_RADIUS,
        fill: Rgba { r: 255, g: 255, b: 255, a: 128 },
        stroke: Rgba { r: 0, g: 0, b: 0, a: 128 },
        stroke_width: DOT_STROKE_WIDTH,
    }
}

/// Pixel (x, y) of an RGBA8 surface of width `w` holds four zero bytes,
/// that is, it is fully transparent.
pub open spec fn pixel_clear(rgba: Seq<u8>, w: int, x: int, y: int) -> bool {
    &&& rgba[4 * (y * w + x)] == 0
    &&& rgba[4 * (y * w + x) + 1] == 0
    &&& rgba[4 * (y * w + x) + 2] == 0
    &&& rgba[4 * (y * w + x) + 3] == 0
}

/// (x, y) lies outside the axis-aligned square of half-width `bound`
/// around (cx, cy).
pub open spec fn outside_box(x: int, y: int, cx: int, cy: int, bound: int) -> bool {
    x < cx - bound || x > cx + bound || y < cy - bound || y > cy + bound
}

/// Every pixel of a `w` by `h` RGBA8 surface that lies outside the square of
/// half-width `bound` around (cx, cy) is fully transparent.
pub open spec fn clear_outside_box(
    rgba: Seq<u8>,
    w: int,
    h: int,
    cx: int,
    cy: int,
    bound: int,
) -> bool {
    forall|x: int, y: int|
        0 <= x < w && 0 <= y < h && outside_box(x, y, cx, cy, bound)
            ==> #[trigger] pixel_clear(rgba, w, x, y)
}

/// Decides whether a rasterized surface is fully transparent outside the
/// square of half-width `bound` around (cx, cy): a correctly drawn marker
/// touches no pixel outside its bounding region.
pub fn surface_clear_outside(
    rgba: &Vec<u8>,
    width: u32,
    height: u32,
    cx: u32,
    cy: u32,
    bound: u32,
) -> (r: bool)
    requires
        rgba@.len() == 4 * (width as int) * (height as int),
    ensures
        r == clear_outside_box(
            rgba@,
            width as int,
            height as int,
            cx as int,
            cy as int,
            bound as int,
        ),
{
    // Calling len binds the buffer's length to usize, which bounds the
    // byte index of every pixel.
    let _len: usize = rgba.len();
    assert(4 * (width as int) * (height as int) <= usize::MAX);
    let mut y: u32 = 0;
    while y < height
        invariant
            rgba@.len() == 4 * (width as int) * (height as int),
            4 * (width as int) * (height as int) <= usize::MAX,
            y <= height,
            forall|xi: int, yi: int|
                0 <= xi < width && 0 <= yi < y
                    && outside_box(xi, yi, cx as int, cy as int, bound as int)
                    ==> #[trigger] pixel_clear(rgba@, width as int, xi, yi),
        decreases height - y,
    {
        let mut x: u32 = 0;
        while x < width
            invariant
                rgba@.len() == 4 * (width as int) * (height as int),
                4 * (width as int) * (height as int) <= usize::MAX,
                y < height,
                x <= width,
                forall|xi: int, yi: int|
                    0 <= xi < width && 0 <= yi < y
                        && outside_box(xi, yi, cx as int, cy as int, bound as int)
                        ==> #[trigger] pixel_clear(rgba@, width as int, xi, yi),
                forall|xi: int|
                    0 <= xi < x
                        && outside_box(xi, y as int, cx as int, cy as int, bound as int)
                        ==> #[trigger] pixel_clear(rgba@, width as int, xi, y as int),
            decreases width - x,
        {
            let outside = (x as u64) + (bound as u64) < (cx as u64)
                || (x as u64) > (cx as u64) + (bound as u64)
                || (y as u64) + (bound as u64) < (cy as u64)
                || (y as u64) > (cy as u64) + (bound as u64);
            if outside {
                proof {
                    assert((y as int) * (width as int) + (x as int) >= 0
                        && 4 * ((y as int) * (width as int) + (x as int)) + 4
                            <= 4 * (width as int) * (height as int)) by (nonlinear_arith)
                        requires
                            0 <= x < width,
                            0 <= y < height,
                    ;
                }
                let base: usize = 4 * ((y as usize) * (width as usize) + (x as usize));
                if rgba[base] != 0 || rgba[base + 1] != 0 || rgba[base + 2] != 0
                    || rgba[base + 3] != 0 {
                    proof {
                        assert(!pixel_clear(rgba@, width as int, x as int, y as int));
                        assert(outside_box(
                            x as int,
                            y as int,
                            cx as int,
                            cy as int,
                            bound as int,
                        ));
                    }
                    return false;
                }
                assert(pixel_clear(rgba@, width as int, x as int, y as int));
            } else {
                assert(!outside_box(x as int, y as int, cx as int, cy as int, bound as int));
            }
            x = x + 1;
        }
        y = y + 1;
    }
    true
}

} // verus!

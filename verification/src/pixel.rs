use vstd::prelude::*;

verus! {

/// The packed 32-bit presentation value of one RGBA8 pixel: the alpha byte
/// is dropped and the colour bytes land in `0x00RRGGBB` layout.
pub open spec fn packed_pixel(r: u8, g: u8, b: u8) -> u32 {
    ((r as u32) << 16) | ((g as u32) << 8) | (b as u32)
}

/// The packed value of pixel `i` of an RGBA8 byte surface.
pub open spec fn packed_at(rgba: Seq<u8>, i: int) -> u32 {
    packed_pixel(rgba[4 * i], rgba[4 * i + 1], rgba[4 * i + 2])
}

/// The whole packed frame of an RGBA8 byte surface holding `n` pixels.
pub open spec fn packed_frame(rgba: Seq<u8>, n: nat) -> Seq<u32> {
    Seq::new(n, |i: int| packed_at(rgba, i))
}

/// Packs one RGBA8 pixel for presentation. Total over all inputs, and the
/// result never depends on the alpha byte `a`.
pub fn pack_rgba(r: u8, g: u8, b: u8, a: u8) -> (p: u32)
    ensures
        p == packed_pixel(r, g, b),
{
    ((r as u32) << 16) | ((g as u32) << 8) | (b as u32)
}

/// The high byte of a packed pixel is always clear: the packed layout is
/// `0x00RRGGBB`, with no alpha channel.
pub proof fn lemma_packed_pixel_high_byte_clear(r: u8, g: u8, b: u8)
    ensures
        packed_pixel(r, g, b) < 0x1000000,
{
    assert((((r as u32) << 16) | ((g as u32) << 8) | (b as u32)) < 0x1000000)
        by (bit_vector);
}

/// Converts a whole rasterized RGBA8 surface of `width * height` pixels into
/// the packed frame that a presentation buffer receives, pixel by pixel.
pub fn convert_surface(rgba: &Vec<u8>, width: u32, height: u32) -> (out: Vec<u32>)
    requires
        rgba@.len() == 4 * (width as int) * (height as int),
    ensures
        out@ == packed_frame(rgba@, ((width as int) * (height as int)) as nat),
        out@.len() == (width as int) * (height as int),
{
    // Calling len binds the buffer's length to usize, which bounds 4 * n.
    let _len: usize = rgba.len();
    proof {
        assert((width as int) * (height as int) >= 0) by (nonlinear_arith);
        assert(4 * ((width as int) * (height as int)) == 4 * (width as int) * (height as int))
            by (nonlinear_arith);
    }
    let n: usize = (width as usize) * (height as usize);
    assert(rgba@.len() == 4 * n);
    assert(4 * n <= usize::MAX);
    let mut out: Vec<u32> = Vec::new();
    let mut i: usize = 0;
    while i < n
        invariant
            rgba@.len() == 4 * n,
            4 * n <= usize::MAX,
            i <= n,
            out@.len() == i as int,
            forall|j: int| 0 <= j < i ==> out@[j] == packed_at(rgba@, j),
        decreases n - i,
    {
        let base: usize = 4 * i;
        let p = pack_rgba(rgba[base], rgba[base + 1], rgba[base + 2], rgba[base + 3]);
        out.push(p);
        i = i + 1;
    }
    assert(out@ =~= packed_frame(rgba@, n as nat));
    out
}

/// Redrawing with the window size unchanged is idempotent at the
/// presentation stage: the packed frame is a function of the surface bytes
/// and the pixel count alone, so two conversions of the same rasterized
/// surface are pixel-identical.
pub proof fn lemma_convert_idempotent(rgba: Seq<u8>, n: nat, first: Seq<u32>, second: Seq<u32>)
    requires
        first == packed_frame(rgba, n),
        second == packed_frame(rgba, n),
    ensures
        first == second,
{
}

} // verus!

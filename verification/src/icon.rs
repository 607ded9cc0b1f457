use vstd::prelude::*;

verus! {

/// Declares `image::ImageError` so the decode wrapper can hand the outside
/// crate's error through unchanged; the value itself stays opaque here.
#[verifier::external_type_specification]
#[verifier::external_body]
pub struct ExImageError(image::ImageError);

/// What `image::load_from_memory` decodes a byte sequence to, once
/// converted to RGBA8: the raw bytes with their width and height, or
/// nothing where the bytes are not a decodable image. Decoding depends on
/// the input bytes alone.
pub uninterp spec fn decoded_rgba8(bytes: Seq<u8>) -> Option<(Seq<u8>, u32, u32)>;

/// Relies on `image::load_from_memory` to decode the bytes, on
/// `DynamicImage::into_rgba8` to convert the decoded image to RGBA8, and on
/// `ImageBuffer::into_raw` and `dimensions`, whose raw buffer holds at
/// least width * height * 4 bytes.
#[verifier::external_body]
fn decode_rgba8(bytes: &[u8]) -> (r: Result<(Vec<u8>, u32, u32), image::ImageError>)
    ensures
        r matches Ok(t) ==> decoded_rgba8(bytes@) == Some((t.0@, t.1, t.2)) && t.0@.len() >= 4
            * t.1 * t.2,
        r is Err ==> decoded_rgba8(bytes@) is None,
{
    match image::load_from_memory(bytes) {
        Ok(img) => {
            let buf = img.into_rgba8();
            let (width, height) = buf.dimensions();
            Ok((buf.into_raw(), width, height))
        },
        Err(e) => Err(e),
    }
}

/// A decoded taskbar icon: raw RGBA8 bytes together with the pixel
/// dimensions they match exactly.
pub struct IconData {
    pub rgba: Vec<u8>,
    pub width: u32,
    pub height: u32,
}

impl IconData {
    /// The byte buffer holds exactly four bytes per pixel.
    pub open spec fn wf(self) -> bool {
        self.rgba@.len() == 4 * self.width * self.height
    }
}

/// Builds an icon from decoded parts, accepting them exactly when the byte
/// buffer holds four bytes per pixel — the well-formedness the window
/// system demands of a taskbar icon.
pub fn icon_from_parts(rgba: Vec<u8>, width: u32, height: u32) -> (r: Option<IconData>)
    ensures
        rgba@.len() == 4 * width * height ==> (r matches Some(d) && d.rgba@ == rgba@ && d.width
            == width && d.height == height && d.wf()),
        rgba@.len() != 4 * width * height ==> r is None,
{
    proof {
        assert((width as int) * (height as int) >= 0 && (width as int) * (height as int)
            < 0x10000000000000000int && 4 * ((width as int) * (height as int)) == 4 * (
        width as int) * (height as int))
            by (nonlinear_arith)
            requires
                width <= 0xffffffffu32,
                height <= 0xffffffffu32,
        ;
    }
    let wh: u64 = (width as u64) * (height as u64);
    let need: u128 = 4 * (wh as u128);
    if (rgba.len() as u128) == need {
        Some(IconData { rgba, width, height })
    } else {
        None
    }
}

/// Decodes an embedded icon resource to RGBA8 and validates it: the icon
/// comes back exactly when the bytes decode and the decoded buffer holds
/// four bytes per pixel. A failure here is a build-time defect of the
/// embedded resource, which the caller treats as fatal.
pub fn decode_icon(bytes: &[u8]) -> (r: Option<IconData>)
    ensures
        r matches Some(d) ==> d.wf() && (decoded_rgba8(bytes@) matches Some(t) && t.0 == d.rgba@
            && t.1 == d.width && t.2 == d.height),
        decoded_rgba8(bytes@) matches Some(t) ==> (t.0.len() == 4 * t.1 * t.2 ==> (r matches Some(
        d) && d.rgba@ == t.0 && d.width == t.1 && d.height == t.2)),
        decoded_rgba8(bytes@) is None ==> r is None,
{
    match decode_rgba8(bytes) {
        Ok((rgba, width, height)) => icon_from_parts(rgba, width, height),
        Err(_) => None,
    }
}

} // verus!

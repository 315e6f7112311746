//! Icon provisioning: a fixed-size RGBA tray bitmap, decoded and resized
//! from the first usable asset, or synthesized procedurally when no asset
//! can be used.
//!
//! The shell reads the candidate asset files (absence is a supported
//! condition, not an error) and hands the bytes here; everything after
//! the file read is decided in this module. Missing candidates are
//! skipped, but only the first candidate that exists is consulted:
//! provisioning never fails, and a decode failure on that candidate
//! falls through to the generated placeholder, not to a later asset.

use vstd::prelude::*;

verus! {

/// Tray icons are square, this many pixels on a side.
pub const ICON_SIDE: usize = 16;

/// The byte length of a tray icon bitmap: 4 bytes per pixel, RGBA.
pub const ICON_BYTES: usize = 16 * 16 * 4;

/// A bitmap destined for the native tray: RGBA rows, top to bottom.
pub struct TrayIconBitmap {
    pub rgba: Vec<u8>,
}

impl TrayIconBitmap {
    /// The one invariant of a tray bitmap: its length matches its fixed
    /// dimensions exactly.
    pub open spec fn wf(&self) -> bool {
        self.rgba@.len() == ICON_BYTES
    }

    /// The byte length of the bitmap.
    pub fn len(&self) -> (n: usize)
        ensures
            n == self.rgba@.len(),
    {
        self.rgba.len()
    }
}

/// One channel of the procedural placeholder: a 1-pixel white border, a
/// bright-blue interior, and a 1-pixel dark-blue ring between the two.
/// `c` is the channel within the pixel at `(x, y)`: red, green, blue,
/// alpha in that order.
pub open spec fn placeholder_channel(x: int, y: int, c: int) -> u8 {
    if x == 0 || x == 15 || y == 0 || y == 15 {
        255
    } else if 2 <= x && x < 14 && 2 <= y && y < 14 {
        if c == 0 {
            0
        } else if c == 1 {
            150
        } else {
            255
        }
    } else {
        if c == 0 {
            0
        } else if c == 1 {
            80
        } else if c == 2 {
            180
        } else {
            255
        }
    }
}

/// The whole procedural placeholder bitmap, row-major RGBA.
pub open spec fn placeholder_rgba() -> Seq<u8> {
    Seq::new(1024, |i: int| placeholder_channel((i / 4) % 16, i / 64, i % 4))
}

/// Synthesizes the placeholder bitmap: white border, bright-blue
/// interior, dark-blue transition ring, fully opaque.
pub fn generate_placeholder_icon() -> (r: TrayIconBitmap)
    ensures
        r.wf(),
        r.rgba@ == placeholder_rgba(),
{
    let mut data: Vec<u8> = Vec::new();
    let mut y: usize = 0;
    while y < 16
        invariant
            y <= 16,
            data@.len() == y * 64,
            forall|j: int| 0 <= j < data@.len() ==> data@[j] == placeholder_rgba()[j],
        decreases 16 - y,
    {
        let mut x: usize = 0;
        while x < 16
            invariant
                y < 16,
                x <= 16,
                data@.len() == y * 64 + x * 4,
                forall|j: int| 0 <= j < data@.len() ==> data@[j] == placeholder_rgba()[j],
            decreases 16 - x,
        {
            let border = x == 0 || x == 15 || y == 0 || y == 15;
            let interior = 2 <= x && x < 14 && 2 <= y && y < 14;
            let red: u8 = if border {
                255
            } else {
                0
            };
            let green: u8 = if border {
                255
            } else if interior {
                150
            } else {
                80
            };
            let blue: u8 = if border {
                255
            } else if interior {
                255
            } else {
                180
            };
            let ghost base = (y * 64 + x * 4) as int;
            data.push(red);
            data.push(green);
            data.push(blue);
            data.push(255u8);
            proof {
                assert forall|c: int| 0 <= c < 4 implies #[trigger] placeholder_rgba()[base + c]
                    == placeholder_channel(x as int, y as int, c) by {
                    assert((base + c) / 4 == y * 16 + x);
                    assert((y * 16 + x as int) % 16 == x);
                    assert((base + c) / 64 == y);
                    assert((base + c) % 4 == c);
                }
            }
            x = x + 1;
        }
        y = y + 1;
    }
    proof {
        assert(data@ =~= placeholder_rgba());
    }
    TrayIconBitmap { rgba: data }
}

/// What the image decoder makes of a byte string: `None` when the bytes
/// are not a decodable image, otherwise the RGBA pixels with the image's
/// width and height. A pure function of the bytes alone.
pub uninterp spec fn decoded_rgba(bytes: Seq<u8>) -> Option<(Seq<u8>, nat, nat)>;

/// Relies on `image::load_from_memory` to decode the bytes (guessing the
/// format) and on `DynamicImage::to_rgba8` to convert the result to
/// 8-bit RGBA; both depend on the bytes alone. The decoder also consults
/// a process-global registry of runtime format hooks before its built-in
/// guess; nothing in this library or its shell registers one, so the
/// result is a function of the bytes. The pixel buffer of the converted
/// image holds exactly width x height RGBA pixels.
#[verifier::external_body]
fn decode_image_rgba(bytes: &Vec<u8>) -> (r: Option<(Vec<u8>, u32, u32)>)
    ensures
        (r is Some) == (decoded_rgba(bytes@) is Some),
        r is Some ==> {
            &&& r.unwrap().0@ == decoded_rgba(bytes@).unwrap().0
            &&& r.unwrap().1 as nat == decoded_rgba(bytes@).unwrap().1
            &&& r.unwrap().2 as nat == decoded_rgba(bytes@).unwrap().2
            &&& r.unwrap().0@.len() == r.unwrap().1 * r.unwrap().2 * 4
        },
{
    match image::load_from_memory(bytes.as_slice()) {
        Ok(img) => {
            let rgba = img.to_rgba8();
            let w = rgba.width();
            let h = rgba.height();
            Some((rgba.into_raw(), w, h))
        },
        Err(_) => None,
    }
}

/// What Lanczos resampling to the fixed icon size makes of an RGBA
/// buffer with the given dimensions. A pure function of its arguments.
pub uninterp spec fn lanczos_16(pixels: Seq<u8>, w: nat, h: nat) -> Seq<u8>;

/// Relies on `image::imageops::resize` with `FilterType::Lanczos3`,
/// which resamples (not crops) the source to the requested dimensions
/// and depends only on the source pixels; the result holds exactly
/// 16 x 16 RGBA pixels. `RgbaImage::from_raw` only rewraps the buffer;
/// with nonzero dimensions and a buffer of exactly width x height x 4
/// bytes its internal size computation cannot overflow on any target,
/// so it accepts the buffer.
#[verifier::external_body]
fn resize_to_icon(pixels: Vec<u8>, w: u32, h: u32) -> (r: Vec<u8>)
    requires
        pixels@.len() == w * h * 4,
        w > 0,
        h > 0,
    ensures
        r@.len() == 1024,
        r@ == lanczos_16(pixels@, w as nat, h as nat),
{
    let img = image::RgbaImage::from_raw(w, h, pixels).expect("buffer length matches dimensions");
    image::imageops::resize(&img, 16, 16, image::imageops::FilterType::Lanczos3).into_raw()
}

/// The icon a single asset yields: `None` when the bytes do not decode
/// (or claim a degenerate zero dimension, which no real image format
/// produces), the pixels as decoded when they are already icon-sized,
/// and the resampled pixels otherwise.
pub open spec fn decoded_icon(bytes: Seq<u8>) -> Option<Seq<u8>> {
    match decoded_rgba(bytes) {
        None => None,
        Some((pix, w, h)) => if w == 0 || h == 0 {
            None
        } else if w == 16 && h == 16 {
            Some(pix)
        } else {
            Some(lanczos_16(pix, w, h))
        },
    }
}

/// Decodes one asset's bytes into a tray bitmap, resampling to the icon
/// size when the image has any other dimensions.
pub fn icon_from_bytes(bytes: &Vec<u8>) -> (r: Option<TrayIconBitmap>)
    ensures
        (r is Some) == (decoded_icon(bytes@) is Some),
        r is Some ==> r.unwrap().wf() && r.unwrap().rgba@ == decoded_icon(bytes@).unwrap(),
{
    match decode_image_rgba(bytes) {
        None => None,
        Some((pix, w, h)) => {
            if w == 0 || h == 0 {
                None
            } else if w == 16 && h == 16 {
                Some(TrayIconBitmap { rgba: pix })
            } else {
                Some(TrayIconBitmap { rgba: resize_to_icon(pix, w, h) })
            }
        },
    }
}

/// The views of a list of optional asset byte buffers.
pub open spec fn asset_views(assets: Seq<Option<Vec<u8>>>) -> Seq<Option<Seq<u8>>> {
    assets.map_values(
        |o: Option<Vec<u8>>|
            match o {
                None => None,
                Some(v) => Some(v@),
            },
    )
}

/// The bitmap provisioning settles on. Missing candidates are skipped;
/// the first candidate that exists decides: its icon when it decodes,
/// the procedural placeholder when it does not. Later candidates are
/// never consulted, and with no existing candidate at all the
/// placeholder stands.
pub open spec fn icon_of_assets(assets: Seq<Option<Seq<u8>>>) -> Seq<u8>
    decreases assets.len(),
{
    if assets.len() == 0 {
        placeholder_rgba()
    } else {
        match assets[0] {
            Some(bytes) => match decoded_icon(bytes) {
                Some(pix) => pix,
                None => placeholder_rgba(),
            },
            None => icon_of_assets(assets.drop_first()),
        }
    }
}

/// Produces the tray icon from the candidate assets, in priority order.
/// Only the first candidate that exists is read; never fails: a
/// well-formed bitmap comes back for every input, the placeholder when
/// no candidate exists or the first existing one does not decode.
pub fn produce_icon(assets: &Vec<Option<Vec<u8>>>) -> (r: TrayIconBitmap)
    ensures
        r.wf(),
        r.rgba@ == icon_of_assets(asset_views(assets@)),
{
    let ghost s = asset_views(assets@);
    let mut i: usize = 0;
    proof {
        assert(s.skip(0) =~= s);
    }
    while i < assets.len()
        invariant
            i <= assets@.len(),
            s == asset_views(assets@),
            s.len() == assets@.len(),
            icon_of_assets(s) == icon_of_assets(s.skip(i as int)),
        decreases assets@.len() - i,
    {
        proof {
            assert(s.skip(i as int)[0] == s[i as int]);
            assert(s.skip(i as int).drop_first() =~= s.skip(i as int + 1));
        }
        match &assets[i] {
            Some(bytes) => {
                // The first existing candidate decides: a decode failure
                // here falls to the placeholder, not to a later asset.
                match icon_from_bytes(bytes) {
                    Some(bm) => {
                        return bm;
                    },
                    None => {
                        return generate_placeholder_icon();
                    },
                }
            },
            None => {},
        }
        i = i + 1;
    }
    proof {
        assert(s.skip(s.len() as int) =~= Seq::<Option<Seq<u8>>>::empty());
    }
    generate_placeholder_icon()
}

/// When every candidate asset is missing or fails to decode,
/// provisioning yields exactly the procedural placeholder pattern.
pub proof fn lemma_icon_falls_back(assets: Seq<Option<Seq<u8>>>)
    requires
        forall|i: int|
            0 <= i < assets.len() ==> (assets[i] is None || decoded_icon(assets[i].unwrap())
                is None),
    ensures
        icon_of_assets(assets) == placeholder_rgba(),
    decreases assets.len(),
{
    if assets.len() > 0 {
        assert(assets[0] is None || decoded_icon(assets[0].unwrap()) is None);
        assert(forall|i: int|
            0 <= i < assets.drop_first().len() ==> assets.drop_first()[i] == assets[i + 1]);
        lemma_icon_falls_back(assets.drop_first());
    }
}

} // verus!

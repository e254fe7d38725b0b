//! The PNG boundary: a rendered pixel buffer leaves the crate as a PNG
//! stream, and the stream decodes back to exactly the buffer it was made
//! from.

use vstd::prelude::*;

verus! {

/// An RGB image: 8-bit channels, row-major, three bytes per pixel.
pub struct PngImage {
    pub width: u32,
    pub height: u32,
    pub pixels: Vec<u8>,
}

impl PngImage {
    /// A nonempty image whose buffer holds exactly three bytes per pixel.
    pub open spec fn wf(&self) -> bool {
        &&& self.width > 0
        &&& self.height > 0
        &&& self.pixels@.len() == 3 * self.width * self.height
    }
}

/// The stream the PNG encoder produces for a `width` x `height` RGB8 image
/// with pixel bytes `pixels`: a pure function of the image alone.
pub uninterp spec fn png_bytes(width: u32, height: u32, pixels: Seq<u8>) -> Seq<u8>;

/// An image small enough that the decoder's default memory budget of 64 MiB
/// covers its output buffer together with the stream's header chunks.
pub open spec fn within_decoder_limit(width: u32, height: u32) -> bool {
    3 * width * height + 4096 <= 67108864
}

/// Relies on png::Encoder writing into a byte vector, with RGB color and
/// eight-bit depth: on a nonempty image with exactly three bytes per pixel
/// the encoder has no failure path, and the stream it produces depends on
/// the image alone.
#[verifier::external_body]
fn encode_rgb8(width: u32, height: u32, pixels: &Vec<u8>) -> (r: Vec<u8>)
    requires
        width > 0,
        height > 0,
        pixels@.len() == 3 * width * height,
    ensures
        r@ == png_bytes(width, height, pixels@),
{
    let mut out: Vec<u8> = Vec::new();
    let mut encoder = png::Encoder::new(&mut out, width, height);
    encoder.set_color(png::ColorType::Rgb);
    encoder.set_depth(png::BitDepth::Eight);
    let mut writer = encoder.write_header().expect("writing RGB8 into memory");
    writer.write_image_data(pixels).expect("writing a matching buffer");
    writer.finish().expect("closing a memory writer");
    out
}

/// Relies on png::Decoder reading back what png::Encoder wrote: PNG is a
/// lossless format, so the stream of a `width` x `height` RGB8 image decodes
/// to exactly that image, and to no other; and on the decoder's default
/// resource limit of 64 MiB, under which decoding such a stream — which
/// charges the limit for its header chunks and one output row — succeeds
/// whenever the whole output buffer fits the budget.
#[verifier::external_body]
fn decode_rgb8(data: &Vec<u8>) -> (r: Option<PngImage>)
    ensures
        match r {
            Some(img) => forall|w: u32, h: u32, p: Seq<u8>|
                w > 0 && h > 0 && p.len() == 3 * w * h && data@ == #[trigger] png_bytes(w, h, p)
                    ==> img.width == w && img.height == h && img.pixels@ == p,
            None => forall|w: u32, h: u32, p: Seq<u8>|
                w > 0 && h > 0 && p.len() == 3 * w * h && within_decoder_limit(w, h) ==> data@
                    != #[trigger] png_bytes(w, h, p),
        },
{
    let decoder = png::Decoder::new(std::io::Cursor::new(&data[..]));
    let mut reader = decoder.read_info().ok()?;
    let mut buf = vec![0u8; reader.output_buffer_size()?];
    let info = reader.next_frame(&mut buf).ok()?;
    buf.truncate(info.buffer_size());
    Some(PngImage { width: info.width, height: info.height, pixels: buf })
}

/// The PNG stream for a well-formed image.
pub fn encode_image(img: &PngImage) -> (r: Vec<u8>)
    requires
        img.wf(),
    ensures
        r@ == png_bytes(img.width, img.height, img.pixels@),
{
    encode_rgb8(img.width, img.height, &img.pixels)
}

/// Encodes an image and decodes the stream again.
///
/// Round trip: whatever decoding returns is the encoded image — same
/// dimensions, same pixel bytes — and on every image within the decoder's
/// default memory budget it does return one.
pub fn png_round_trip(img: &PngImage) -> (r: Option<PngImage>)
    requires
        img.wf(),
    ensures
        r matches Some(d) ==> d.width == img.width && d.height == img.height && d.pixels@
            == img.pixels@,
        within_decoder_limit(img.width, img.height) ==> r is Some,
{
    let bytes = encode_rgb8(img.width, img.height, &img.pixels);
    decode_rgb8(&bytes)
}

} // verus!

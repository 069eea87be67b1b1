//! Images as the device takes them: a header of eleven 16-bit fields in
//! front of the pixel or animation bytes.

use vstd::prelude::*;
use ::image::ImageFormat;
use crate::codec::{be16, push_all, push_be16};

verus! {

/// Size in bytes of the metadata header.
pub const METADATA_LEN: usize = 22;

/// The header that precedes the image bytes. Width and height are the
/// image's; the other fields are tuning constants of the device, which
/// differ between still and animated images.
#[derive(Debug, Clone, Copy, PartialEq, Eq, Structural)]
pub struct ImageMetadata {
    unknown1: u16,
    unknown2: u16,
    width: u16,
    height: u16,
    unknown3: u16,
    unknown4: u16,
    unknown5: u16,
    unknown6: u16,
    unknown7: u16,
    unknown8: u16,
    unknown9: u16,
}

/// The eleven header fields in wire order.
pub open spec fn metadata_fields(
    width: u16,
    height: u16,
    animated: bool,
) -> Seq<u16> {
    if animated {
        seq![0x0000u16, 0x0000, width, height, 0x0000, 0x0006, 0x0001, 0x0064, 0x0400, 0x0064, 0x0000]
    } else {
        seq![0x0000u16, 0x0000, width, height, 0x0000, 0x0001, 0x0001, 0x0001, 0x0032, 0x0064, 0x0000]
    }
}

/// The big-endian bytes of a sequence of 16-bit fields: two for each field,
/// in order.
pub open spec fn fields_bytes(fields: Seq<u16>) -> Seq<u8> {
    Seq::new(2 * fields.len(), |i: int| be16(fields[i / 2])[i % 2])
}

impl ImageMetadata {
    /// The eleven fields in wire order.
    pub closed spec fn fields(self) -> Seq<u16> {
        seq![
            self.unknown1,
            self.unknown2,
            self.width,
            self.height,
            self.unknown3,
            self.unknown4,
            self.unknown5,
            self.unknown6,
            self.unknown7,
            self.unknown8,
            self.unknown9,
        ]
    }

    /// The header as it stands on the wire: 22 bytes.
    pub open spec fn bytes(self) -> Seq<u8> {
        fields_bytes(self.fields())
    }

    /// The header of a still image, 48 by 12.
    pub fn rgb_color() -> (metadata: ImageMetadata)
        ensures
            metadata.fields() == metadata_fields(0x0030, 0x000c, false),
    {
        ImageMetadata {
            unknown1: 0x0000,
            unknown2: 0x0000,
            width: 0x0030,
            height: 0x000c,
            unknown3: 0x0000,
            unknown4: 0x0001,
            unknown5: 0x0001,
            unknown6: 0x0001,
            unknown7: 0x0032,
            unknown8: 0x0064,
            unknown9: 0x0000,
        }
    }

    /// The header of an animated image, 48 by 12.
    pub fn gif() -> (metadata: ImageMetadata)
        ensures
            metadata.fields() == metadata_fields(0x0030, 0x000c, true),
    {
        ImageMetadata {
            unknown1: 0x0000,
            unknown2: 0x0000,
            width: 0x0030,
            height: 0x000c,
            unknown3: 0x0000,
            unknown4: 0x0006,
            unknown5: 0x0001,
            unknown6: 0x0064,
            unknown7: 0x0400,
            unknown8: 0x0064,
            unknown9: 0x0000,
        }
    }

    /// The same header for an image of another size.
    pub fn with_size(self, width: u16, height: u16) -> (metadata: ImageMetadata)
        ensures
            metadata.fields() == self.fields().update(2, width).update(3, height),
    {
        let mut metadata = self;
        metadata.width = width;
        metadata.height = height;
        assert(metadata.fields() =~= self.fields().update(2, width).update(3, height));
        metadata
    }

    pub fn width(&self) -> (width: u16)
        ensures
            width == self.fields()[2],
    {
        self.width
    }

    pub fn height(&self) -> (height: u16)
        ensures
            height == self.fields()[3],
    {
        self.height
    }

    /// Appends the header's 22 bytes to `out`.
    pub fn write_to(&self, out: &mut Vec<u8>)
        ensures
            final(out)@ == old(out)@ + self.bytes(),
            self.bytes().len() == 22,
    {
        push_be16(out, self.unknown1);
        push_be16(out, self.unknown2);
        push_be16(out, self.width);
        push_be16(out, self.height);
        push_be16(out, self.unknown3);
        push_be16(out, self.unknown4);
        push_be16(out, self.unknown5);
        push_be16(out, self.unknown6);
        push_be16(out, self.unknown7);
        push_be16(out, self.unknown8);
        push_be16(out, self.unknown9);
        assert(out@ =~= old(out)@ + self.bytes());
    }
}

/// A pixel buffer of one colour: `count` times the bytes `r`, `g`, `b`.
pub open spec fn solid_pixels(count: nat, r: u8, g: u8, b: u8) -> Seq<u8> {
    Seq::new(
        3 * count,
        |i: int|
            if i % 3 == 0 {
                r
            } else if i % 3 == 1 {
                g
            } else {
                b
            },
    )
}

/// An image ready for the device: its header and its bytes.
#[derive(Debug)]
pub struct ILedImage {
    metadata: ImageMetadata,
    data: Vec<u8>,
}

/// An image as plain values.
pub struct ILedImageView {
    /// The eleven header fields in wire order.
    pub metadata_fields: Seq<u16>,
    /// The image bytes behind the header.
    pub data: Seq<u8>,
}

impl View for ILedImage {
    type V = ILedImageView;

    closed spec fn view(&self) -> ILedImageView {
        ILedImageView { metadata_fields: self.metadata.fields(), data: self.data@ }
    }
}

impl ILedImageView {
    /// The image as it enters a continuation frame: the header, then the
    /// image bytes.
    pub open spec fn bytes(self) -> Seq<u8> {
        fields_bytes(self.metadata_fields) + self.data
    }
}

impl ILedImage {
    /// An image of the given size and bytes, with the header `image_type`
    /// set to that size.
    pub fn new(width: u16, height: u16, image_type: ImageMetadata, data: Vec<u8>) -> (image:
        ILedImage)
        ensures
            image@.metadata_fields == image_type.fields().update(2, width).update(3, height),
            image@.data == data@,
    {
        let metadata = image_type.with_size(width, height);
        ILedImage { metadata, data }
    }

    /// The header's 22 bytes followed by the image bytes.
    pub fn to_bytes(&self) -> (bytes: Vec<u8>)
        ensures
            bytes@ == self@.bytes(),
            bytes@.len() == 22 + self@.data.len(),
    {
        let mut bytes: Vec<u8> = Vec::new();
        self.metadata.write_to(&mut bytes);
        push_all(&mut bytes, self.data.as_slice());
        bytes
    }

    /// An image of one colour: `width * height` pixels of three bytes each,
    /// under the header of a still image.
    pub fn solid_color(width: u16, height: u16, r: u8, g: u8, b: u8) -> (image: ILedImage)
        ensures
            image@.metadata_fields == metadata_fields(width, height, false),
            image@.data == solid_pixels(width as nat * height as nat, r, g, b),
    {
        assert(width as u64 * height as u64 <= 65535 * 65535) by (nonlinear_arith)
            requires
                width <= 65535,
                height <= 65535,
        ;
        let total: u64 = (width as u64) * (height as u64);
        let mut data: Vec<u8> = Vec::new();
        let mut i: u64 = 0;
        while i < total
            invariant
                i <= total,
                data@ == solid_pixels(i as nat, r, g, b),
            decreases total - i,
        {
            data.push(r);
            data.push(g);
            data.push(b);
            i += 1;
            assert(data@ =~= solid_pixels(i as nat, r, g, b));
        }
        let image = ILedImage::new(width, height, ImageMetadata::rgb_color(), data);
        assert(image@.metadata_fields =~= metadata_fields(width, height, false));
        image
    }

    pub fn metadata(&self) -> (metadata: ImageMetadata)
        ensures
            metadata.fields() == self@.metadata_fields,
    {
        self.metadata
    }

    /// The image bytes without the header.
    pub fn data(&self) -> (data: &Vec<u8>)
        ensures
            data@ == self@.data,
    {
        &self.data
    }
}

/// The file formats that an image is loaded from.
#[derive(Debug, Clone, Copy, PartialEq, Eq, Structural)]
pub enum ImageKind {
    Gif,
    Png,
    Jpeg,
    Bmp,
    Tiff,
    WebP,
}

/// The file formats that the leading bytes of a file can announce.
#[derive(Debug, Clone, Copy, PartialEq, Eq, Structural)]
pub enum FileFormat {
    Png,
    Jpeg,
    Gif,
    WebP,
    Pnm,
    Tiff,
    Tga,
    Dds,
    Bmp,
    Ico,
    Hdr,
    OpenExr,
    Farbfeld,
    Avif,
    Qoi,
    Pcx,
    /// A format that this library has no name for.
    Other,
}

/// Why a file gave no image.
#[derive(Debug, Clone, Copy, PartialEq, Eq, Structural)]
pub enum ImageLoadError {
    /// The file's format was not recognised.
    UnknownFormat,
    /// The file's format is none that an image is loaded from.
    UnsupportedFormat(FileFormat),
    /// The file did not decode as its format.
    Decode,
}

#[verifier::external_type_specification]
#[verifier::external_body]
pub struct ExImageError(::image::ImageError);

/// The format that the magic bytes at the start of a file announce, or
/// `None` where they announce none.
pub uninterp spec fn guessed_format(data: Seq<u8>) -> Option<FileFormat>;

/// Calls `image::guess_format`, which holds the start of the buffer against a
/// fixed table of signatures. Trusted: the guess depends on the bytes alone.
/// An error of the call is reported as `None`; each format is reported under
/// its own name.
#[verifier::external_body]
fn guess_format(data: &[u8]) -> (guess: Option<FileFormat>)
    ensures
        guess == guessed_format(data@),
{
    match ::image::guess_format(data) {
        Err(_) => None,
        Ok(format) => Some(match format {
            ImageFormat::Png => FileFormat::Png, ImageFormat::Jpeg => FileFormat::Jpeg,
            ImageFormat::Gif => FileFormat::Gif, ImageFormat::WebP => FileFormat::WebP,
            ImageFormat::Pnm => FileFormat::Pnm, ImageFormat::Tiff => FileFormat::Tiff,
            ImageFormat::Tga => FileFormat::Tga, ImageFormat::Dds => FileFormat::Dds,
            ImageFormat::Bmp => FileFormat::Bmp, ImageFormat::Ico => FileFormat::Ico,
            ImageFormat::Hdr => FileFormat::Hdr, ImageFormat::OpenExr => FileFormat::OpenExr,
            ImageFormat::Farbfeld => FileFormat::Farbfeld, ImageFormat::Avif => FileFormat::Avif,
            ImageFormat::Qoi => FileFormat::Qoi, ImageFormat::Pcx => FileFormat::Pcx,
            _ => FileFormat::Other,
        }),
    }
}

/// Calls `image::load_from_memory_with_format` and, on the image it gives,
/// `width`, `height` and `to_rgb8().into_raw()`. Trusted: where the call
/// returns an image, its RGB8 buffer holds three bytes for each of its
/// `width * height` pixels. Nothing is claimed of which files decode, nor of
/// the size and pixels they decode to; and the decoders are not known to
/// return on every input.
#[verifier::external_body]
fn decode_rgb(data: &[u8], kind: ImageKind) -> (out: Result<(u32, u32, Vec<u8>), ::image::ImageError>)
    ensures
        out matches Ok((width, height, pixels)) ==> pixels@.len() == 3 * width * height,
{
    let format = match kind {
        ImageKind::Gif => ImageFormat::Gif,
        ImageKind::Png => ImageFormat::Png,
        ImageKind::Jpeg => ImageFormat::Jpeg,
        ImageKind::Bmp => ImageFormat::Bmp,
        ImageKind::Tiff => ImageFormat::Tiff,
        ImageKind::WebP => ImageFormat::WebP,
    };
    let decoded = ::image::load_from_memory_with_format(data, format)?;
    Ok((decoded.width(), decoded.height(), decoded.to_rgb8().into_raw()))
}

/// The kind under which a file of the given format is loaded, if it is one
/// of the six that are.
pub open spec fn loadable(format: FileFormat) -> Option<ImageKind> {
    match format {
        FileFormat::Gif => Some(ImageKind::Gif),
        FileFormat::Png => Some(ImageKind::Png),
        FileFormat::Jpeg => Some(ImageKind::Jpeg),
        FileFormat::Bmp => Some(ImageKind::Bmp),
        FileFormat::Tiff => Some(ImageKind::Tiff),
        FileFormat::WebP => Some(ImageKind::WebP),
        _ => None,
    }
}

/// Chooses the formats that an image is loaded from: GIF, PNG, JPEG, BMP,
/// TIFF and WebP.
pub fn loadable_kind(format: FileFormat) -> (kind: Option<ImageKind>)
    ensures
        kind == loadable(format),
{
    match format {
        FileFormat::Gif => Some(ImageKind::Gif),
        FileFormat::Png => Some(ImageKind::Png),
        FileFormat::Jpeg => Some(ImageKind::Jpeg),
        FileFormat::Bmp => Some(ImageKind::Bmp),
        FileFormat::Tiff => Some(ImageKind::Tiff),
        FileFormat::WebP => Some(ImageKind::WebP),
        _ => None,
    }
}

/// The image that a decoded file becomes. An animation is handed to the
/// device as the file itself, under the animated header; a still image as
/// its RGB8 pixels, under the still header. The header takes the low 16 bits
/// of each dimension.
pub open spec fn assembled(
    kind: ImageKind,
    width: u32,
    height: u32,
    file: Seq<u8>,
    pixels: Seq<u8>,
) -> ILedImageView {
    ILedImageView {
        metadata_fields: metadata_fields(
            (width % 0x1_0000) as u16,
            (height % 0x1_0000) as u16,
            kind == ImageKind::Gif,
        ),
        data: if kind == ImageKind::Gif {
            file
        } else {
            pixels
        },
    }
}

/// The error for a file whose format gives no image: `UnknownFormat` where
/// none was recognised, else `UnsupportedFormat` with the format's name.
pub fn unsupported_error(format: Option<FileFormat>) -> (error: ImageLoadError)
    ensures
        error == match format {
            Some(f) => ImageLoadError::UnsupportedFormat(f),
            None => ImageLoadError::UnknownFormat,
        },
{
    match format {
        Some(f) => ImageLoadError::UnsupportedFormat(f),
        None => ImageLoadError::UnknownFormat,
    }
}

impl ILedImage {
    /// The image that a decoded file becomes: for a GIF the file's own
    /// bytes under the animated header, else the RGB8 pixels under the still
    /// header, with the decoded size.
    pub fn from_decoded(
        kind: ImageKind,
        width: u32,
        height: u32,
        file: Vec<u8>,
        pixels: Vec<u8>,
    ) -> (image: ILedImage)
        ensures
            image@ == assembled(kind, width, height, file@, pixels@),
    {
        let w: u16 = (width % 0x1_0000) as u16;
        let h: u16 = (height % 0x1_0000) as u16;
        match kind {
            ImageKind::Gif => {
                let image = ILedImage::new(w, h, ImageMetadata::gif(), file);
                assert(image@.metadata_fields =~= metadata_fields(w, h, true));
                image
            },
            _ => {
                let image = ILedImage::new(w, h, ImageMetadata::rgb_color(), pixels);
                assert(image@.metadata_fields =~= metadata_fields(w, h, false));
                image
            },
        }
    }

    /// Loads an image from the bytes of a GIF, PNG, JPEG, BMP, TIFF or WebP
    /// file. The format is told by the file's leading bytes. A file of no
    /// recognised format, or of a format outside the six, is refused before
    /// any decoding. Else the decoder of the `image` crate decides: where
    /// it fails, so does the load; where it gives a size and pixels, the
    /// image is assembled from them, and for a still image the pixels are
    /// three bytes for each pixel of that size.
    ///
    /// The decoding itself is outside code. What it returns is taken as it
    /// comes, and that this function does not panic is not claimed of the
    /// decoder's part in it.
    pub fn from_bytes(file: Vec<u8>) -> (out: Result<ILedImage, ImageLoadError>)
        ensures
            match guessed_format(file@) {
                None => out matches Err(e) && e == ImageLoadError::UnknownFormat,
                Some(format) => match loadable(format) {
                    None => out matches Err(e) && e == ImageLoadError::UnsupportedFormat(format),
                    Some(kind) => match out {
                        Ok(image) => exists|width: u32, height: u32, pixels: Seq<u8>|
                            pixels.len() == 3 * width * height && image@ == #[trigger] assembled(
                                kind,
                                width,
                                height,
                                file@,
                                pixels,
                            ),
                        Err(e) => e == ImageLoadError::Decode,
                    },
                },
            },
    {
        match guess_format(file.as_slice()) {
            None => Err(unsupported_error(None)),
            Some(format) => match loadable_kind(format) {
                None => Err(unsupported_error(Some(format))),
                Some(kind) => match decode_rgb(file.as_slice(), kind) {
                    Err(_) => Err(ImageLoadError::Decode),
                    Ok((width, height, pixels)) => {
                        let image = ILedImage::from_decoded(kind, width, height, file, pixels);
                        assert(image@ == assembled(kind, width, height, file@, pixels@));
                        Ok(image)
                    },
                },
            },
        }
    }
}

} // verus!

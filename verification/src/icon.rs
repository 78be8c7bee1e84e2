//! The icon resource converter: decodes what the platform reported about a
//! native icon bitmap — its structural metadata and the raw pixel bytes
//! fetched along the path that metadata selects — into a canonical BGRA8
//! pixel buffer, failing with a distinct error for each step that can go
//! wrong, and saying on every path whether the native resources must be
//! released.

use vstd::prelude::*;

verus! {

/// Why icon conversion failed, one variant per step of the procedure.
#[derive(Debug, Clone, Copy, PartialEq, Eq, Structural)]
pub enum IconError {
    /// The native icon handle could not be resolved into bitmap resources.
    HandleInvalid,
    /// The color bitmap's structural metadata could not be queried.
    MetadataUnavailable,
    /// The pixel buffer does not match the bitmap's stated dimensions.
    SizeMismatch,
    /// No pixel bytes could be obtained along the selected path.
    NoPixelData,
    /// The source pixel format is not the BGRA8 target and no format
    /// conversion is available here.
    ConversionFailed,
}

/// A decoded icon: dimensions and a BGRA8 pixel buffer, one byte per
/// channel, four bytes per pixel.
#[derive(Debug)]
pub struct IconImage {
    pub width: u32,
    pub height: u32,
    pub pixels: Vec<u8>,
}

/// The mathematical image of an `IconImage`.
#[verifier::ext_equal]
pub ghost struct IconImageView {
    pub width: u32,
    pub height: u32,
    pub pixels: Seq<u8>,
}

impl View for IconImage {
    type V = IconImageView;

    open spec fn view(&self) -> IconImageView {
        IconImageView { width: self.width, height: self.height, pixels: self.pixels@ }
    }
}

impl IconImageView {
    /// The invariant of every constructed icon: the buffer holds exactly
    /// four bytes per pixel.
    pub open spec fn wf(self) -> bool {
        self.pixels.len() == self.width * self.height * 4
    }
}

impl IconImage {
    /// Builds an icon from its parts, failing closed: a buffer whose
    /// length does not equal `width * height * 4` is rejected rather than
    /// truncated or padded.
    pub fn new(width: u32, height: u32, pixels: Vec<u8>) -> (r: Result<IconImage, IconError>)
        ensures
            match r {
                Ok(img) => {
                    &&& pixels@.len() == width * height * 4
                    &&& img@ == (IconImageView { width, height, pixels: pixels@ })
                    &&& img@.wf()
                },
                Err(e) => {
                    &&& pixels@.len() != width * height * 4
                    &&& e == IconError::SizeMismatch
                },
            },
    {
        proof {
            assert((width as int) * (height as int) <= 0xffff_ffffu64 * 0xffff_ffffu64)
                by (nonlinear_arith)
                requires
                    width <= 0xffff_ffffu64,
                    height <= 0xffff_ffffu64,
            ;
        }
        let expected: u128 = (width as u128) * (height as u128) * 4;
        if (pixels.len() as u128) == expected {
            Ok(IconImage { width, height, pixels })
        } else {
            Err(IconError::SizeMismatch)
        }
    }
}

/// The two in-memory layouts a native bitmap can report, resolved once
/// from the metadata query: a device-dependent bitmap whose pixels must be
/// fetched with an explicit transfer call, or a device-independent section
/// whose pixel bytes are directly addressable (when its bits pointer is
/// present at all).
#[derive(Debug, Clone, Copy, PartialEq, Eq, Structural)]
pub enum BitmapLayout {
    DeviceDependent,
    DeviceIndependent { bits_available: bool },
}

/// The structural metadata the platform reports for a color bitmap.
#[derive(Debug, Clone, Copy, PartialEq, Eq, Structural)]
pub struct BitmapMetadata {
    pub width: u32,
    pub height: u32,
    pub bits_per_pixel: u32,
    pub layout: BitmapLayout,
}

/// The outcome of the metadata query.
#[derive(Debug, Clone, Copy, PartialEq, Eq, Structural)]
pub enum MetadataQuery {
    /// The query failed or reported a size matching neither layout.
    Unavailable,
    /// The query succeeded with this metadata.
    Known(BitmapMetadata),
}

/// The outcome of fetching the pixel bytes along the selected path.
#[derive(Debug)]
pub enum PixelTransfer {
    /// The transfer call failed or read nothing.
    Failed,
    /// The raw pixel bytes.
    Bytes(Vec<u8>),
}

/// Everything the platform reported while resolving one icon: whether the
/// handle resolved into bitmap resources, what the metadata query said,
/// and what the pixel fetch yielded.
#[derive(Debug)]
pub struct IconProbe {
    pub handle_ok: bool,
    pub query: MetadataQuery,
    pub transfer: PixelTransfer,
}

/// What conversion decided: the decoded icon or the step-specific error,
/// and whether the caller must release the native color and mask
/// resources it acquired.
#[derive(Debug)]
pub struct ConversionOutcome {
    pub image: Result<IconImage, IconError>,
    pub release_required: bool,
}

/// The decode path selected by the number of bytes the metadata query
/// wrote: the size of the device-dependent structure selects the explicit
/// transfer path, the size of the device-independent structure selects the
/// direct-bits path, and anything else (zero included) means the metadata
/// is unusable. The first matching size wins.
#[derive(Debug, Clone, Copy, PartialEq, Eq, Structural)]
pub enum QueryPath {
    UseTransfer,
    UseDirectBits,
    Unavailable,
}

/// The path selected for a metadata query that wrote `bytes_read` bytes.
pub open spec fn spec_classify_bitmap_query(
    bytes_read: u32,
    bitmap_struct_size: u32,
    dib_struct_size: u32,
) -> QueryPath {
    if bytes_read == bitmap_struct_size {
        QueryPath::UseTransfer
    } else if bytes_read == dib_struct_size {
        QueryPath::UseDirectBits
    } else {
        QueryPath::Unavailable
    }
}

/// Resolves the branch point of the decode once, from the metadata
/// query's byte count.
pub fn classify_bitmap_query(bytes_read: u32, bitmap_struct_size: u32, dib_struct_size: u32) -> (r:
    QueryPath)
    ensures
        r == spec_classify_bitmap_query(bytes_read, bitmap_struct_size, dib_struct_size),
{
    if bytes_read == bitmap_struct_size {
        QueryPath::UseTransfer
    } else if bytes_read == dib_struct_size {
        QueryPath::UseDirectBits
    } else {
        QueryPath::Unavailable
    }
}

/// What conversion returns for a probe, step by step: an unresolved
/// handle is `HandleInvalid`; unusable metadata is `MetadataUnavailable`;
/// a device-independent section without a bits pointer, or a failed pixel
/// fetch, is `NoPixelData`; a source that is not 32 bits per pixel is
/// `ConversionFailed`; a buffer of the wrong length is `SizeMismatch`;
/// everything else decodes.
pub open spec fn spec_convert_icon(probe: IconProbe) -> Result<IconImageView, IconError> {
    if !probe.handle_ok {
        Err(IconError::HandleInvalid)
    } else {
        match probe.query {
            MetadataQuery::Unavailable => Err(IconError::MetadataUnavailable),
            MetadataQuery::Known(m) => {
                if m.layout == (BitmapLayout::DeviceIndependent { bits_available: false }) {
                    Err(IconError::NoPixelData)
                } else {
                    match probe.transfer {
                        PixelTransfer::Failed => Err(IconError::NoPixelData),
                        PixelTransfer::Bytes(px) => {
                            if m.bits_per_pixel != 32 {
                                Err(IconError::ConversionFailed)
                            } else if px@.len() != m.width * m.height * 4 {
                                Err(IconError::SizeMismatch)
                            } else {
                                Ok(IconImageView { width: m.width, height: m.height, pixels: px@ })
                            }
                        },
                    }
                }
            },
        }
    }
}

/// Decodes one probed icon into the canonical pixel buffer, or the error
/// of the first step that failed. Whenever the handle was resolved the
/// caller holds native resources, and `release_required` says so on every
/// path — each error return included — so nothing can leak.
pub fn convert_icon(probe: IconProbe) -> (out: ConversionOutcome)
    ensures
        out.release_required == probe.handle_ok,
        match out.image {
            Ok(img) => spec_convert_icon(probe) == Ok::<_, IconError>(img@) && img@.wf(),
            Err(e) => spec_convert_icon(probe) == Err::<IconImageView, _>(e),
        },
{
    let release_required = probe.handle_ok;
    if !probe.handle_ok {
        return ConversionOutcome { image: Err(IconError::HandleInvalid), release_required };
    }
    let m = match probe.query {
        MetadataQuery::Unavailable => {
            return ConversionOutcome {
                image: Err(IconError::MetadataUnavailable),
                release_required,
            };
        },
        MetadataQuery::Known(m) => m,
    };
    if m.layout == (BitmapLayout::DeviceIndependent { bits_available: false }) {
        return ConversionOutcome { image: Err(IconError::NoPixelData), release_required };
    }
    let px = match probe.transfer {
        PixelTransfer::Failed => {
            return ConversionOutcome { image: Err(IconError::NoPixelData), release_required };
        },
        PixelTransfer::Bytes(px) => px,
    };
    if m.bits_per_pixel != 32 {
        return ConversionOutcome { image: Err(IconError::ConversionFailed), release_required };
    }
    match IconImage::new(m.width, m.height, px) {
        Ok(img) => ConversionOutcome { image: Ok(img), release_required },
        Err(_) => ConversionOutcome { image: Err(IconError::SizeMismatch), release_required },
    }
}

} // verus!

use browser_select::icon::{
    classify_bitmap_query, convert_icon, BitmapLayout, BitmapMetadata, IconError, IconImage,
    IconProbe, MetadataQuery, PixelTransfer, QueryPath,
};

fn meta32(layout: BitmapLayout) -> BitmapMetadata {
    BitmapMetadata { width: 32, height: 32, bits_per_pixel: 32, layout }
}

#[test]
fn decodes_a_32x32_32bpp_bitmap_into_4096_bytes() {
    let probe = IconProbe {
        handle_ok: true,
        query: MetadataQuery::Known(meta32(BitmapLayout::DeviceDependent)),
        transfer: PixelTransfer::Bytes(vec![0xAB; 32 * 32 * 4]),
    };
    let out = convert_icon(probe);
    assert!(out.release_required);
    let img = out.image.unwrap();
    assert_eq!(img.width, 32);
    assert_eq!(img.height, 32);
    assert_eq!(img.pixels.len(), 4096);
}

#[test]
fn resources_are_released_even_when_the_pixel_transfer_fails() {
    let probe = IconProbe {
        handle_ok: true,
        query: MetadataQuery::Known(meta32(BitmapLayout::DeviceDependent)),
        transfer: PixelTransfer::Failed,
    };
    let out = convert_icon(probe);
    assert!(out.release_required);
    assert_eq!(out.image.unwrap_err(), IconError::NoPixelData);
}

#[test]
fn unresolved_handle_needs_no_release() {
    let probe = IconProbe {
        handle_ok: false,
        query: MetadataQuery::Unavailable,
        transfer: PixelTransfer::Failed,
    };
    let out = convert_icon(probe);
    assert!(!out.release_required);
    assert_eq!(out.image.unwrap_err(), IconError::HandleInvalid);
}

#[test]
fn unusable_metadata_is_its_own_error() {
    let probe = IconProbe {
        handle_ok: true,
        query: MetadataQuery::Unavailable,
        transfer: PixelTransfer::Failed,
    };
    let out = convert_icon(probe);
    assert!(out.release_required);
    assert_eq!(out.image.unwrap_err(), IconError::MetadataUnavailable);
}

#[test]
fn missing_direct_bits_pointer_is_no_pixel_data() {
    let probe = IconProbe {
        handle_ok: true,
        query: MetadataQuery::Known(meta32(BitmapLayout::DeviceIndependent {
            bits_available: false,
        })),
        transfer: PixelTransfer::Bytes(vec![0; 4096]),
    };
    let out = convert_icon(probe);
    assert!(out.release_required);
    assert_eq!(out.image.unwrap_err(), IconError::NoPixelData);
}

#[test]
fn direct_bits_path_decodes_too() {
    let probe = IconProbe {
        handle_ok: true,
        query: MetadataQuery::Known(meta32(BitmapLayout::DeviceIndependent {
            bits_available: true,
        })),
        transfer: PixelTransfer::Bytes(vec![7; 4096]),
    };
    let out = convert_icon(probe);
    let img = out.image.unwrap();
    assert_eq!(img.pixels, vec![7; 4096]);
}

#[test]
fn wrong_buffer_length_is_a_size_mismatch() {
    let probe = IconProbe {
        handle_ok: true,
        query: MetadataQuery::Known(meta32(BitmapLayout::DeviceDependent)),
        transfer: PixelTransfer::Bytes(vec![0; 4095]),
    };
    let out = convert_icon(probe);
    assert!(out.release_required);
    assert_eq!(out.image.unwrap_err(), IconError::SizeMismatch);
}

#[test]
fn non_bgra8_sources_cannot_be_converted_here() {
    let meta = BitmapMetadata {
        width: 32,
        height: 32,
        bits_per_pixel: 24,
        layout: BitmapLayout::DeviceDependent,
    };
    let probe = IconProbe {
        handle_ok: true,
        query: MetadataQuery::Known(meta),
        transfer: PixelTransfer::Bytes(vec![0; 32 * 32 * 3]),
    };
    let out = convert_icon(probe);
    assert_eq!(out.image.unwrap_err(), IconError::ConversionFailed);
}

#[test]
fn icon_image_construction_fails_closed() {
    assert_eq!(
        IconImage::new(2, 2, vec![0; 15]).unwrap_err(),
        IconError::SizeMismatch
    );
    let img = IconImage::new(2, 2, vec![9; 16]).unwrap();
    assert_eq!(img.pixels.len(), 16);
}

#[test]
fn query_byte_count_selects_the_decode_path() {
    // The platform writes 32 bytes for a device-dependent bitmap
    // structure and 104 for a device-independent section.
    assert_eq!(classify_bitmap_query(32, 32, 104), QueryPath::UseTransfer);
    assert_eq!(classify_bitmap_query(104, 32, 104), QueryPath::UseDirectBits);
    assert_eq!(classify_bitmap_query(0, 32, 104), QueryPath::Unavailable);
    assert_eq!(classify_bitmap_query(57, 32, 104), QueryPath::Unavailable);
}

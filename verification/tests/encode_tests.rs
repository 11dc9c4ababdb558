use gife::encode::EncodingSession;
use gife::frame::RasterImage;
use gife::geometry::{resolve_geometry, Geometry};

fn solid_raster(width: u32, height: u32, rgba: [u8; 4]) -> RasterImage {
    let mut pixels = Vec::new();
    for _ in 0..(width * height) {
        pixels.extend_from_slice(&rgba);
    }
    RasterImage { width, height, pixels }
}

type DecodedFrame = (u16, u16, u16, gif::DisposalMethod, Vec<u8>);

/// The application extension announcing infinite looping, followed later by
/// the end-of-stream marker.
fn ends_with_infinite_loop_directive(bytes: &[u8]) -> bool {
    let directive: [u8; 19] = [
        0x21, 0xFF, 0x0B, b'N', b'E', b'T', b'S', b'C', b'A', b'P', b'E', b'2', b'.', b'0', 0x03,
        0x01, 0x00, 0x00, 0x00,
    ];
    bytes.len() >= 20
        && bytes[bytes.len() - 20..bytes.len() - 1] == directive
        && bytes[bytes.len() - 1] == 0x3B
}

fn decode_all(bytes: &[u8]) -> (u16, u16, Vec<DecodedFrame>) {
    let mut options = gif::DecodeOptions::new();
    options.set_color_output(gif::ColorOutput::RGBA);
    let mut decoder = options.read_info(bytes).unwrap();
    let width = decoder.width();
    let height = decoder.height();
    let mut frames = Vec::new();
    while let Some(frame) = decoder.read_next_frame().unwrap() {
        frames.push((
            frame.width,
            frame.height,
            frame.delay,
            frame.dispose,
            frame.buffer.to_vec(),
        ));
    }
    (width, height, frames)
}

#[test]
fn three_same_size_opaque_rasters_make_three_records() {
    let geometry = resolve_geometry(None, 64, 64);
    let mut session = EncodingSession::open(geometry).unwrap();
    let colors = [[255u8, 0, 0, 255], [0, 255, 0, 255], [0, 0, 255, 255]];
    for color in colors {
        session.write_raster(solid_raster(64, 64, color), false, 10).unwrap();
    }
    assert_eq!(session.frame_count(), 3);
    let bytes = session.finish().unwrap();
    let (width, height, frames) = decode_all(&bytes);
    assert_eq!((width, height), (64, 64));
    assert_eq!(frames.len(), 3);
    for (k, (fw, fh, delay, dispose, buffer)) in frames.iter().enumerate() {
        assert_eq!((*fw, *fh, *delay), (64, 64, 10));
        assert_eq!(*dispose, gif::DisposalMethod::Background);
        for pixel in buffer.chunks(4) {
            assert_eq!(pixel, &colors[k]);
        }
    }
    assert!(ends_with_infinite_loop_directive(&bytes));
}

#[test]
fn first_raster_fixes_geometry_and_later_frames_are_resampled() {
    let first = solid_raster(100, 50, [10, 20, 30, 255]);
    let geometry = resolve_geometry(None, first.width, first.height);
    assert_eq!(geometry, Geometry { width: 100, height: 50 });
    let mut session = EncodingSession::open(geometry).unwrap();
    session.write_raster(first, false, 5).unwrap();
    session.write_raster(solid_raster(200, 100, [10, 20, 30, 255]), false, 5).unwrap();
    let bytes = session.finish().unwrap();
    let (width, height, frames) = decode_all(&bytes);
    assert_eq!((width, height), (100, 50));
    assert_eq!(frames.len(), 2);
    for (fw, fh, _, _, _) in &frames {
        assert_eq!((*fw, *fh), (100, 50));
    }
}

#[test]
fn explicit_geometry_overrides_both_inputs() {
    let geometry = resolve_geometry(Some(Geometry { width: 50, height: 50 }), 64, 64);
    assert_eq!(geometry, Geometry { width: 50, height: 50 });
    let mut session = EncodingSession::open(geometry).unwrap();
    session.write_raster(solid_raster(64, 64, [1, 2, 3, 255]), false, 2).unwrap();
    session.write_raster(solid_raster(100, 50, [4, 5, 6, 255]), false, 2).unwrap();
    let bytes = session.finish().unwrap();
    let (width, height, frames) = decode_all(&bytes);
    assert_eq!((width, height), (50, 50));
    assert_eq!(frames.len(), 2);
    for (fw, fh, _, _, _) in &frames {
        assert_eq!((*fw, *fh), (50, 50));
    }
}

#[test]
fn preserved_transparency_survives_the_container() {
    let mut pixels = vec![7, 8, 9, 0];
    pixels.extend_from_slice(&[255, 0, 0, 255]);
    let raster = RasterImage { width: 2, height: 1, pixels };
    let geometry = Geometry { width: 2, height: 1 };
    let mut session = EncodingSession::open(geometry).unwrap();
    session.write_raster(raster, true, 3).unwrap();
    let bytes = session.finish().unwrap();
    let (_, _, frames) = decode_all(&bytes);
    assert_eq!(frames.len(), 1);
    let buffer = &frames[0].4;
    assert_eq!(buffer.len(), 8);
    assert_eq!(buffer[3], 0);
    assert_eq!(&buffer[4..8], &[255, 0, 0, 255]);
}

#[test]
fn empty_session_still_yields_a_valid_container() {
    let mut session = EncodingSession::open(Geometry { width: 8, height: 8 }).unwrap();
    assert_eq!(session.frame_count(), 0);
    session.write_raster(solid_raster(8, 8, [0, 0, 0, 255]), false, 1).unwrap();
    let bytes = session.finish().unwrap();
    let (width, height, frames) = decode_all(&bytes);
    assert_eq!((width, height), (8, 8));
    assert_eq!(frames.len(), 1);
}

//! The incremental GIF container writer: a session bound to one canonical
//! geometry that accepts normalized frames one at a time and finishes with
//! the infinite-loop trailer.

use vstd::prelude::*;

use crate::frame::{normalize, normalized_pixels, NormalizedFrame, RasterImage};
use crate::geometry::Geometry;

verus! {

/// Holds gif's encoder over an in-memory writer. The encoder's type carries
/// a writer bound that Verus cannot declare, so the whole handle is opaque;
/// only the trusted wrappers below touch it.
#[verifier::external_body]
struct GifEncoderHandle {
    inner: gif::Encoder<Vec<u8>>,
}

/// The ways the container writer can fail.
#[derive(Clone, Copy, PartialEq, Eq, Structural, Debug)]
pub enum EncodeError {
    /// The writer could not allocate a working buffer for a frame.
    OutOfMemory,
    /// The underlying byte sink failed.
    Io,
}

/// What one written frame contributed to the stream, at the model level:
/// its geometry, its timing, and its pixel bytes before palette reduction.
pub ghost struct FrameRecord {
    pub width: u16,
    pub height: u16,
    pub delay_centis: u16,
    pub pixels: Seq<u8>,
}

/// Relies on `gif::Encoder::new` with an in-memory writer: it writes the
/// global header for the given screen size and the given global color table
/// (at most 256 three-byte entries, padded per the table-size flag). The
/// palette bound rules out the one format error the call can return, and a
/// write into the in-memory buffer cannot fail, so the call succeeds.
#[verifier::external_body]
fn gif_encoder_new(width: u16, height: u16, palette: &Vec<u8>) -> (r: Result<
    GifEncoderHandle,
    EncodeError,
>)
    requires
        palette.len() <= 768,
    ensures
        r is Ok,
{
    match gif::Encoder::new(Vec::new(), width, height, palette.as_slice()) {
        Ok(enc) => Ok(GifEncoderHandle { inner: enc }),
        Err(gif::EncodingError::OutOfMemory) => Err(EncodeError::OutOfMemory),
        Err(_) => Err(EncodeError::Io),
    }
}

/// Relies on `gif::Frame::from_rgba`, which panics unless the buffer holds
/// exactly `width * height * 4` bytes, and on `gif::Encoder::write_frame`:
/// together they append one frame record with the given delay and the
/// restore-to-background disposal method.
#[verifier::external_body]
fn gif_write_rgba_frame(
    enc: &mut GifEncoderHandle,
    width: u16,
    height: u16,
    pixels: Vec<u8>,
    delay_centis: u16,
) -> (r: Result<(), EncodeError>)
    requires
        pixels.len() == width * height * 4,
{
    let mut data = pixels;
    let mut frame = gif::Frame::from_rgba(width, height, data.as_mut_slice());
    frame.delay = delay_centis;
    frame.dispose = gif::DisposalMethod::Background;
    match enc.inner.write_frame(&frame) {
        Ok(()) => Ok(()),
        Err(gif::EncodingError::OutOfMemory) => Err(EncodeError::OutOfMemory),
        Err(_) => Err(EncodeError::Io),
    }
}

/// Relies on `gif::Encoder::set_repeat`: it appends the application
/// extension that tells players to loop the sequence forever. It performs
/// only fixed-size writes into the in-memory buffer, so it succeeds.
#[verifier::external_body]
fn gif_set_repeat_infinite(enc: &mut GifEncoderHandle) -> (r: Result<(), EncodeError>)
    ensures
        r is Ok,
{
    match enc.inner.set_repeat(gif::Repeat::Infinite) {
        Ok(()) => Ok(()),
        Err(gif::EncodingError::OutOfMemory) => Err(EncodeError::OutOfMemory),
        Err(_) => Err(EncodeError::Io),
    }
}

/// Relies on `gif::Encoder::into_inner`: it appends the end-of-stream marker
/// and hands back the in-memory writer with the whole container. The marker
/// is one byte into the in-memory buffer and the writer is always present,
/// so the call succeeds.
#[verifier::external_body]
fn gif_into_bytes(enc: GifEncoderHandle) -> (r: Result<Vec<u8>, EncodeError>)
    ensures
        r is Ok,
{
    match enc.inner.into_inner() {
        Ok(bytes) => Ok(bytes),
        Err(gif::EncodingError::OutOfMemory) => Err(EncodeError::OutOfMemory),
        Err(_) => Err(EncodeError::Io),
    }
}

/// An open encoding session: the container written so far, its canonical
/// geometry, and a count of the frames written. Finishing consumes it.
pub struct EncodingSession {
    encoder: GifEncoderHandle,
    width: u16,
    height: u16,
    frames_written: u64,
    history: Ghost<Seq<FrameRecord>>,
}

impl EncodingSession {
    /// The canonical geometry the session was opened with.
    pub closed spec fn geometry(self) -> Geometry {
        Geometry { width: self.width, height: self.height }
    }

    /// The frames written so far, oldest first.
    pub closed spec fn frames(self) -> Seq<FrameRecord> {
        self.history@
    }

    /// The frame counter agrees with the record of written frames, and every
    /// recorded frame carries the session's geometry.
    pub closed spec fn wf(self) -> bool {
        &&& self.frames_written as int == self.history@.len() as int
        &&& forall|k: int|
            0 <= k < self.history@.len() ==> (#[trigger] self.history@[k]).width == self.width
                && self.history@[k].height == self.height
    }

    /// Opens a session: writes the global header sized to `geometry`, with a
    /// zero-filled global color table placeholder of 256 entries.
    pub fn open(geometry: Geometry) -> (r: Result<EncodingSession, EncodeError>)
        ensures
            r is Ok,
            r is Ok ==> r->Ok_0.wf(),
            r is Ok ==> r->Ok_0.geometry() == geometry,
            r is Ok ==> r->Ok_0.frames() == Seq::<FrameRecord>::empty(),
    {
        let mut palette: Vec<u8> = Vec::new();
        let mut k: usize = 0;
        while k < 256
            invariant
                palette.len() == k,
                k <= 256,
            decreases 256 - k,
        {
            palette.push(0);
            k = k + 1;
        }
        match gif_encoder_new(geometry.width, geometry.height, &palette) {
            Ok(enc) => Ok(
                EncodingSession {
                    encoder: enc,
                    width: geometry.width,
                    height: geometry.height,
                    frames_written: 0,
                    history: Ghost(Seq::empty()),
                },
            ),
            Err(e) => Err(e),
        }
    }

    /// The number of frames written so far.
    pub fn frame_count(&self) -> (n: u64)
        requires
            self.wf(),
        ensures
            n as int == self.frames().len() as int,
    {
        self.frames_written
    }

    /// The session's canonical geometry.
    pub fn current_geometry(&self) -> (g: Geometry)
        ensures
            g == self.geometry(),
    {
        Geometry { width: self.width, height: self.height }
    }

    /// Appends one normalized frame as the next record of the stream. The
    /// frame must carry the session's own geometry; the geometry itself
    /// never changes.
    pub fn write_frame(&mut self, frame: NormalizedFrame) -> (r: Result<(), EncodeError>)
        requires
            old(self).wf(),
            frame.wf(),
            frame.width == old(self).geometry().width,
            frame.height == old(self).geometry().height,
            old(self).frames().len() < u64::MAX,
        ensures
            final(self).wf(),
            final(self).geometry() == old(self).geometry(),
            r is Ok ==> final(self).frames() == old(self).frames().push(
                FrameRecord {
                    width: frame.width,
                    height: frame.height,
                    delay_centis: frame.delay_centis,
                    pixels: frame.pixels@,
                },
            ),
            r is Err ==> final(self).frames() == old(self).frames(),
    {
        let NormalizedFrame { width, height, pixels, delay_centis, disposal: _ } = frame;
        let ghost pix = pixels@;
        match gif_write_rgba_frame(&mut self.encoder, width, height, pixels, delay_centis) {
            Ok(()) => {
                self.frames_written = self.frames_written + 1;
                let ghost rec = FrameRecord { width, height, delay_centis, pixels: pix };
                self.history = Ghost(self.history@.push(rec));
                Ok(())
            },
            Err(e) => Err(e),
        }
    }

    /// Normalizes one raster against the session's geometry and appends it:
    /// the per-raster step of the pipeline's main loop.
    pub fn write_raster(&mut self, raster: RasterImage, preserve_alpha: bool, delay_centis: u16) -> (r:
        Result<(), EncodeError>)
        requires
            old(self).wf(),
            raster.wf(),
            old(self).frames().len() < u64::MAX,
        ensures
            final(self).wf(),
            final(self).geometry() == old(self).geometry(),
            r is Ok ==> final(self).frames() == old(self).frames().push(
                FrameRecord {
                    width: old(self).geometry().width,
                    height: old(self).geometry().height,
                    delay_centis: delay_centis,
                    pixels: normalized_pixels(raster, old(self).geometry(), preserve_alpha),
                },
            ),
            r is Err ==> final(self).frames() == old(self).frames(),
    {
        let geometry = Geometry { width: self.width, height: self.height };
        let frame = normalize(raster, geometry, preserve_alpha, delay_centis);
        self.write_frame(frame)
    }

    /// Finishes the stream: appends the infinite-loop directive and the
    /// end-of-stream marker, and hands back the whole container's bytes.
    /// The session is consumed; no operation can follow.
    pub fn finish(self) -> (r: Result<Vec<u8>, EncodeError>)
        ensures
            r is Ok,
    {
        let mut encoder = self.encoder;
        match gif_set_repeat_infinite(&mut encoder) {
            Ok(()) => gif_into_bytes(encoder),
            Err(e) => Err(e),
        }
    }
}

/// Law: the canonical geometry, once established, is identical for every
/// frame a well-formed session has written, whatever each raster's native
/// size was.
pub proof fn lemma_frames_conform(s: EncodingSession, k: int)
    requires
        s.wf(),
        0 <= k < s.frames().len(),
    ensures
        s.frames()[k].width == s.geometry().width,
        s.frames()[k].height == s.geometry().height,
{
}

} // verus!

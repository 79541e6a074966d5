//! The unified front end over the two codec back ends: shared value
//! types, the packet model, and the dispatching encoder and decoder.

use crate::aom::{AomDecodeFrames, AomDecoder, AomEncodeFrames, AomEncoder, AomImage};
use crate::error::{check_call, failed_call_msg, Error};
use crate::frame::FrameData;
use crate::vpx::{VpxDecodeFrames, VpxDecoder, VpxEncodeFrames, VpxEncoder, VpxImage};
use vstd::prelude::*;

verus! {

/// Which codec back end a frame or context belongs to.
#[derive(Copy, Clone, Debug, PartialEq, Eq, Hash, Structural)]
pub enum VideoCodecId {
    VP8,
    VP9,
    AV1,
}

impl Default for VideoCodecId {
    /// The default codec of the unified layer.
    fn default() -> (r: VideoCodecId)
        ensures
            r == VideoCodecId::VP9,
    {
        VideoCodecId::VP9
    }
}

/// The caller-supplied encoder settings: a flat value object with no
/// internal invariant beyond positive dimensions and bitrate.
#[derive(Clone, Copy, Debug)]
pub struct Config {
    /// The width (in pixels).
    pub width: u32,
    /// The height (in pixels).
    pub height: u32,
    /// The timebase numerator and denominator (in seconds).
    pub timebase: [i32; 2],
    /// The target bitrate (in kilobits per second).
    pub bitrate: u32,
    /// The codec
    pub codec: VideoCodecId,
    pub rc_min_quantizer: u32,
    pub rc_max_quantizer: u32,
    pub speed: i32,
}

impl Config {
    /// Positive dimensions, bitrate and timebase denominator, with a frame
    /// small enough that its pixel count fits the native configuration.
    pub open spec fn valid(&self) -> bool {
        &&& 1 <= self.width
        &&& 1 <= self.height
        &&& 1 <= self.bitrate
        &&& 1 <= self.timebase@[1]
        &&& self.width * self.height <= u32::MAX
    }
}

/// What a key-frame bit looks like in a back end's packet flags.
pub const FRAME_IS_KEY: u32 = 1;

/// The kind tag of one packet in a back end's output queue: a compressed
/// frame, or bookkeeping output that the iteration skips.
#[derive(Clone, Copy, Debug, PartialEq, Eq, Structural)]
pub enum CxPacketKind {
    FramePkt,
    Other,
}

/// One packet from a back end's output queue, as plain values.
#[derive(Clone, Debug)]
pub struct CxPacket {
    /// The kind tag of the packet.
    pub kind: CxPacketKind,
    /// The compressed bytes of a frame packet.
    pub data: Vec<u8>,
    /// The frame flags; the lowest bit marks a key frame.
    pub flags: u32,
    /// Presentation timestamp (in timebase units).
    pub pts: i64,
}

/// The mathematical content of one compressed frame.
pub struct EncodeFrameView {
    pub data: Seq<u8>,
    pub key: bool,
    pub pts: int,
}

/// One compressed frame handed back by an encoder.
#[derive(Clone, Debug)]
pub struct EncodeFrame {
    /// Compressed data.
    pub data: Vec<u8>,
    /// Whether the frame is a keyframe.
    pub key: bool,
    /// Presentation timestamp (in timebase units).
    pub pts: i64,
}

impl View for EncodeFrame {
    type V = EncodeFrameView;

    open spec fn view(&self) -> EncodeFrameView {
        EncodeFrameView { data: self.data@, key: self.key, pts: self.pts as int }
    }
}

/// Whether a packet carries a compressed frame.
pub open spec fn is_frame_packet(p: CxPacket) -> bool {
    p.kind is FramePkt
}

/// The frame carried by a frame packet.
pub open spec fn packet_frame(p: CxPacket) -> EncodeFrameView {
    EncodeFrameView { data: p.data@, key: (p.flags & FRAME_IS_KEY) != 0, pts: p.pts as int }
}

/// The frames of the packets from position `i` on: frame packets in
/// order, everything else skipped.
pub open spec fn frames_from(packets: Seq<CxPacket>, i: int) -> Seq<EncodeFrameView>
    decreases packets.len() - i,
{
    if i < 0 || i >= packets.len() {
        Seq::empty()
    } else if is_frame_packet(packets[i]) {
        seq![packet_frame(packets[i])] + frames_from(packets, i + 1)
    } else {
        frames_from(packets, i + 1)
    }
}

/// What a back end's decoded image offers the unified layer: a possibly
/// null handle, and behind a non-null one an I420 frame.
pub trait ImageApi: Sized {
    /// The frame behind the handle; a null handle has none.
    spec fn spec_frame(&self) -> Option<FrameData>;

    /// A fresh null handle.
    fn new() -> (r: Self)
        ensures
            r.spec_frame() is None,
    ;

    /// Whether the handle is null.
    fn is_null(&self) -> (r: bool)
        ensures
            r == (self.spec_frame() is None),
    ;

    /// The displayed width of the frame.
    fn width(&self) -> (r: usize)
        requires
            self.spec_frame() is Some,
        ensures
            r == self.spec_frame()->Some_0.d_w as usize,
    ;

    /// The displayed height of the frame.
    fn height(&self) -> (r: usize)
        requires
            self.spec_frame() is Some,
        ensures
            r == self.spec_frame()->Some_0.d_h as usize,
    ;

    /// The row stride of one plane.
    fn stride(&self, iplane: usize) -> (r: i32)
        requires
            self.spec_frame() is Some,
            iplane < 4,
        ensures
            r == self.spec_frame()->Some_0.stride@[iplane as int],
    ;

    /// The three planes, luma first.
    fn data(&self) -> (r: (&[u8], &[u8], &[u8]))
        requires
            self.spec_frame() is Some,
        ensures
            r.0@ == self.spec_frame()->Some_0.y@,
            r.1@ == self.spec_frame()->Some_0.u@,
            r.2@ == self.spec_frame()->Some_0.v@,
    ;

    /// Converts the frame to a packed pixel buffer; rows are padded to
    /// the alignment and the old contents of `dst` are discarded.
    fn rgb(&self, stride_align: usize, rgba: bool, dst: &mut Vec<u8>)
        requires
            self.spec_frame() is Some,
            self.spec_frame()->Some_0.wf(),
            1 <= stride_align,
            self.spec_frame()->Some_0.d_w + stride_align <= usize::MAX,
        ensures
            final(dst)@ == self.spec_frame()->Some_0.rgb_view(stride_align as int, rgba),
    ;
}

/// A decoded image of either back end, as the unified layer hands it out.
pub struct Image<T: ImageApi> {
    inner: T,
}

impl<T: ImageApi> Image<T> {
    /// The frame behind the wrapped handle.
    pub closed spec fn spec_frame(&self) -> Option<FrameData> {
        self.inner.spec_frame()
    }

    /// Wraps a back end's image handle.
    #[inline]
    pub fn new(inner: T) -> (r: Self)
        ensures
            r.spec_frame() == inner.spec_frame(),
    {
        Image { inner }
    }

    /// Whether the wrapped handle is null.
    #[inline]
    pub fn is_null(&self) -> (r: bool)
        ensures
            r == (self.spec_frame() is None),
    {
        self.inner.is_null()
    }

    /// The displayed width of the frame.
    #[inline]
    pub fn width(&self) -> (r: usize)
        requires
            self.spec_frame() is Some,
        ensures
            r == self.spec_frame()->Some_0.d_w as usize,
    {
        self.inner.width()
    }

    /// The displayed height of the frame.
    #[inline]
    pub fn height(&self) -> (r: usize)
        requires
            self.spec_frame() is Some,
        ensures
            r == self.spec_frame()->Some_0.d_h as usize,
    {
        self.inner.height()
    }

    /// The row stride of one plane.
    #[inline]
    pub fn stride(&self, iplane: usize) -> (r: i32)
        requires
            self.spec_frame() is Some,
            iplane < 4,
        ensures
            r == self.spec_frame()->Some_0.stride@[iplane as int],
    {
        self.inner.stride(iplane)
    }

    /// Converts the frame to a packed pixel buffer.
    pub fn rgb(&self, stride_align: usize, rgba: bool, dst: &mut Vec<u8>)
        requires
            self.spec_frame() is Some,
            self.spec_frame()->Some_0.wf(),
            1 <= stride_align,
            self.spec_frame()->Some_0.d_w + stride_align <= usize::MAX,
        ensures
            final(dst)@ == self.spec_frame()->Some_0.rgb_view(stride_align as int, rgba),
    {
        self.inner.rgb(stride_align, rgba, dst)
    }

    /// The three planes, luma first.
    #[inline]
    pub fn data(&self) -> (r: (&[u8], &[u8], &[u8]))
        requires
            self.spec_frame() is Some,
        ensures
            r.0@ == self.spec_frame()->Some_0.y@,
            r.1@ == self.spec_frame()->Some_0.u@,
            r.2@ == self.spec_frame()->Some_0.v@,
    {
        self.inner.data()
    }
}

/// A non-null image handle holds a well-formed frame that the packed
/// conversion can index.
pub open spec fn img_ok<T: ImageApi>(img: T) -> bool {
    img.spec_frame() matches Some(f) ==> f.wf() && f.d_w + 1 <= usize::MAX
}

/// A handle behind which a frame stands: the native frame iterators never
/// hand out a null image, since they stop at the first null.
pub open spec fn img_present<T: ImageApi>(img: T) -> bool {
    img.spec_frame() is Some
}

/// The packed conversion of the last image of a sequence, with unaligned
/// rows: empty when the sequence is empty or ends in a null handle.
pub open spec fn last_image_rgb<T: ImageApi>(imgs: Seq<T>, rgba: bool) -> Seq<u8> {
    if imgs.len() == 0 {
        Seq::empty()
    } else {
        match imgs.last().spec_frame() {
            None => Seq::empty(),
            Some(f) => f.rgb_view(1, rgba),
        }
    }
}

/// What a codec back end offers the unified decoder: derivation of its
/// configuration, and the wrapping of one native decode outcome as the
/// image handles it hands out.
pub trait DecoderApi: Sized {
    /// The image handles this back end hands out.
    type Img: ImageApi;

    /// The exact state a fresh context derives from the caller's settings.
    spec fn spec_configured(&self, codec: VideoCodecId, num_threads: u32) -> bool;

    /// The name of the native call a decode is checked against.
    spec fn spec_call_name(&self) -> Seq<char>;

    /// How the back end wraps one list of decoded frames for iteration.
    spec fn spec_wraps(&self, fr: DecodeFrames, frames: Seq<Self::Img>) -> bool;

    /// Derives the context state for the caller's settings.
    fn new(codec: VideoCodecId, num_threads: u32) -> (r: Result<Self, Error>)
        ensures
            r matches Ok(d) && d.spec_configured(codec, num_threads),
    ;

    /// Decodes one compressed buffer straight to a packed pixel buffer:
    /// the last frame the decoder handed back (across the decode and the
    /// flush) is converted with unaligned rows; no frame gives an empty
    /// buffer.
    fn decode2rgb(
        &mut self,
        data: &[u8],
        rgba: bool,
        decode_status: i32,
        flush_status: i32,
        decoded: Vec<Self::Img>,
        flushed: Vec<Self::Img>,
    ) -> (r: Result<Vec<u8>, Error>)
        requires
            forall|i: int| 0 <= i < decoded@.len() ==> #[trigger] img_ok(decoded@[i]),
            forall|i: int| 0 <= i < flushed@.len() ==> #[trigger] img_ok(flushed@[i]),
        ensures
            *final(self) == *old(self),
            decode_status == 0 && flush_status == 0 <==> r is Ok,
            decode_status != 0 ==> (r matches Err(Error::FailedCall(m)) && m@ == failed_call_msg(
                decode_status as int,
                old(self).spec_call_name(),
            )),
            decode_status == 0 && flush_status != 0 ==> (r matches Err(Error::FailedCall(m)) && m@
                == failed_call_msg(flush_status as int, old(self).spec_call_name())),
            decode_status == 0 && flush_status == 0 ==> (r matches Ok(out) && out@
                == last_image_rgb(decoded@ + flushed@, rgba)),
    ;

    /// Feeds one compressed buffer to the decoder; `status` is what the
    /// native decode call reported and `frames` is what its frame
    /// iterator then handed back, which never includes a null handle.
    fn decode(&mut self, data: &[u8], status: i32, frames: Vec<Self::Img>) -> (r: Result<
        DecodeFrames,
        Error,
    >)
        requires
            forall|i: int| 0 <= i < frames@.len() ==> #[trigger] img_present(frames@[i]),
        ensures
            *final(self) == *old(self),
            status == 0 <==> r is Ok,
            status != 0 ==> (r matches Err(Error::FailedCall(m)) && m@ == failed_call_msg(
                status as int,
                old(self).spec_call_name(),
            )),
            status == 0 ==> (r matches Ok(fr) && old(self).spec_wraps(fr, frames@)),
    ;

    /// Asks the decoder for its pending frames; the native call is the
    /// decode call with no data attached.
    fn flush(&mut self, status: i32, frames: Vec<Self::Img>) -> (r: Result<DecodeFrames, Error>)
        requires
            forall|i: int| 0 <= i < frames@.len() ==> #[trigger] img_present(frames@[i]),
        ensures
            *final(self) == *old(self),
            status == 0 <==> r is Ok,
            status != 0 ==> (r matches Err(Error::FailedCall(m)) && m@ == failed_call_msg(
                status as int,
                old(self).spec_call_name(),
            )),
            status == 0 ==> (r matches Ok(fr) && old(self).spec_wraps(fr, frames@)),
    ;
}

/// Advances a cursor over a packet list to the next frame packet and
/// hands that frame out; packets of any other kind are skipped.
pub fn next_frame_packet(packets: &Vec<CxPacket>, iter: &mut usize) -> (r: Option<EncodeFrame>)
    requires
        *old(iter) <= packets@.len(),
    ensures
        *final(iter) <= packets@.len(),
        frames_from(packets@, *old(iter) as int).len() == 0 ==> r is None && frames_from(
            packets@,
            *final(iter) as int,
        ).len() == 0,
        frames_from(packets@, *old(iter) as int).len() > 0 ==> (r matches Some(f) && f@
            == frames_from(packets@, *old(iter) as int)[0] && frames_from(
            packets@,
            *final(iter) as int,
        ) == frames_from(packets@, *old(iter) as int).skip(1)),
{
    while *iter < packets.len()
        invariant
            *iter <= packets@.len(),
            frames_from(packets@, *iter as int) == frames_from(packets@, *old(iter) as int),
        decreases packets@.len() - *iter,
    {
        let idx = *iter;
        *iter = idx + 1;
        let p = &packets[idx];
        match p.kind {
            CxPacketKind::FramePkt => {
                let key = (p.flags & FRAME_IS_KEY) != 0;
                let data = vstd::slice::slice_to_vec(p.data.as_slice());
                let f = EncodeFrame { data, key, pts: p.pts };
                proof {
                    let rem = frames_from(packets@, idx as int);
                    assert(rem == seq![packet_frame(packets@[idx as int])] + frames_from(
                        packets@,
                        idx + 1,
                    ));
                    assert(rem[0] == packet_frame(packets@[idx as int]));
                    assert(rem.skip(1) =~= frames_from(packets@, idx + 1));
                }
                return Some(f);
            },
            CxPacketKind::Other => {},
        }
    }
    None
}

/// What a codec back end offers the unified encoder: derivation of its
/// configuration from the caller's settings, and the wrapping of one
/// native encode outcome. Each back end says through its spec functions
/// what a fresh context looks like, which native call it stands for, and
/// how it wraps an output queue.
pub trait EncoderApi: Sized {
    /// The exact state a fresh context derives from the caller's settings.
    spec fn spec_configured(&self, config: Config, num_threads: u32) -> bool;

    /// The name of the native call an encode is checked against.
    spec fn spec_call_name(&self) -> Seq<char>;

    /// How the back end wraps one output queue for iteration.
    spec fn spec_wraps(&self, fr: EncodeFrames, packets: Seq<CxPacket>) -> bool;

    /// Derives the context state for the caller's settings.
    fn new(config: &Config, num_threads: u32) -> (r: Result<Self, Error>)
        requires
            config.valid(),
        ensures
            r matches Ok(e) && e.spec_configured(*config, num_threads),
    ;

    /// Feeds one raw I420 frame to the encoder. `status` is what the
    /// native encode call reported; on success the back end's output
    /// queue, handed in as packets, is wrapped for iteration.
    fn encode(
        &mut self,
        pts: i64,
        data: &[u8],
        stride_align: usize,
        width: usize,
        height: usize,
        status: i32,
        packets: Vec<CxPacket>,
    ) -> (r: Result<EncodeFrames, Error>)
        requires
            2 * data@.len() >= 3 * width * height,
        ensures
            *final(self) == *old(self),
            status == 0 <==> r is Ok,
            status != 0 ==> (r matches Err(Error::FailedCall(m)) && m@ == failed_call_msg(
                status as int,
                old(self).spec_call_name(),
            )),
            status == 0 ==> (r matches Ok(fr) && old(self).spec_wraps(fr, packets@)),
    ;

    /// Asks the encoder for its pending packets; the native call is the
    /// encode call with no frame attached.
    fn flush(&mut self, status: i32, packets: Vec<CxPacket>) -> (r: Result<EncodeFrames, Error>)
        ensures
            *final(self) == *old(self),
            status == 0 <==> r is Ok,
            status != 0 ==> (r matches Err(Error::FailedCall(m)) && m@ == failed_call_msg(
                status as int,
                old(self).spec_call_name(),
            )),
            status == 0 ==> (r matches Ok(fr) && old(self).spec_wraps(fr, packets@)),
    ;
}

/// Which back end a unified encoder drives.
pub enum EncoderBackend {
    Vpx(VpxEncoder),
    Aom(AomEncoder),
}

/// The unified encoder: one back end, picked by the configured codec,
/// and the frame size every encode call is checked against.
pub struct Encoder {
    pub inner: EncoderBackend,
    pub width: usize,
    pub height: usize,
}

impl Encoder {
    /// The codec the underlying back end encodes.
    pub open spec fn codec_id(&self) -> VideoCodecId {
        match self.inner {
            EncoderBackend::Vpx(v) => v.encoder_type,
            EncoderBackend::Aom(_) => VideoCodecId::AV1,
        }
    }

    /// The name of the native call an encode is checked against.
    pub open spec fn enc_call_name(&self) -> Seq<char> {
        match self.inner {
            EncoderBackend::Vpx(v) => v.spec_call_name(),
            EncoderBackend::Aom(a) => a.spec_call_name(),
        }
    }

    /// The VP8/VP9 back end never stands behind the AV1 tag; the
    /// constructor picks back ends so.
    pub open spec fn wf(&self) -> bool {
        match self.inner {
            EncoderBackend::Vpx(v) => v.encoder_type is VP8 || v.encoder_type is VP9,
            EncoderBackend::Aom(_) => true,
        }
    }

    /// Builds the back end that the configured codec asks for: the
    /// VP8/VP9 back end for those two codecs, the AV1 back end otherwise.
    pub fn new(config: &Config, num_threads: u32) -> (r: Result<Encoder, Error>)
        requires
            config.valid(),
        ensures
            r matches Ok(e) && e.wf() && e.width == config.width as usize && e.height
                == config.height as usize,
            r matches Ok(e) && match config.codec {
                VideoCodecId::VP8 | VideoCodecId::VP9 => e.inner matches EncoderBackend::Vpx(v)
                    && v.configured(*config, num_threads),
                VideoCodecId::AV1 => e.inner matches EncoderBackend::Aom(a) && a.configured(
                    *config,
                    num_threads,
                ),
            },
    {
        let inner = match config.codec {
            VideoCodecId::VP8 | VideoCodecId::VP9 => {
                match VpxEncoder::new(config, num_threads) {
                    Ok(e) => EncoderBackend::Vpx(e),
                    Err(_) => unreached(),
                }
            },
            VideoCodecId::AV1 => {
                match AomEncoder::new(config, num_threads) {
                    Ok(e) => EncoderBackend::Aom(e),
                    Err(_) => unreached(),
                }
            },
        };
        Ok(Encoder { inner, width: config.width as usize, height: config.height as usize })
    }

    /// Feeds one raw I420 frame, sized for the configured dimensions, to
    /// the back end; `status` is what the native encode call reported and
    /// `packets` is the output queue it left behind.
    pub fn encode(
        &mut self,
        pts: i64,
        data: &[u8],
        stride_align: usize,
        status: i32,
        packets: Vec<CxPacket>,
    ) -> (r: Result<EncodeFrames, Error>)
        requires
            old(self).wf(),
            2 * data@.len() >= 3 * old(self).width * old(self).height,
        ensures
            *final(self) == *old(self),
            status == 0 <==> r is Ok,
            status != 0 ==> (r matches Err(Error::FailedCall(m)) && m@ == failed_call_msg(
                status as int,
                old(self).enc_call_name(),
            )),
            status == 0 ==> (r matches Ok(fr) && fr.wf() && fr.frame_type == old(self).codec_id()
                && fr.remaining() == frames_from(packets@, 0)),
    {
        let width = self.width;
        let height = self.height;
        match &mut self.inner {
            EncoderBackend::Vpx(e) => e.encode(pts, data, stride_align, width, height, status, packets),
            EncoderBackend::Aom(e) => e.encode(pts, data, stride_align, width, height, status, packets),
        }
    }

    /// Notify the encoder to return any pending packets
    pub fn flush(&mut self, status: i32, packets: Vec<CxPacket>) -> (r: Result<
        EncodeFrames,
        Error,
    >)
        requires
            old(self).wf(),
        ensures
            *final(self) == *old(self),
            status == 0 <==> r is Ok,
            status != 0 ==> (r matches Err(Error::FailedCall(m)) && m@ == failed_call_msg(
                status as int,
                old(self).enc_call_name(),
            )),
            status == 0 ==> (r matches Ok(fr) && fr.wf() && fr.frame_type == old(self).codec_id()
                && fr.remaining() == frames_from(packets@, 0)),
    {
        match &mut self.inner {
            EncoderBackend::Vpx(e) => e.flush(status, packets),
            EncoderBackend::Aom(e) => e.flush(status, packets),
        }
    }
}

/// The compressed frames of one encode or flush call, tagged with the
/// back end that produced them.
pub struct EncodeFrames {
    pub vpx_frame: Option<VpxEncodeFrames>,
    pub aom_frame: Option<AomEncodeFrames>,
    pub frame_type: VideoCodecId,
}

impl EncodeFrames {
    /// The side that the tag names is present with its cursor in range.
    pub open spec fn wf(&self) -> bool {
        match self.frame_type {
            VideoCodecId::VP8 | VideoCodecId::VP9 => self.vpx_frame matches Some(v) && v.wf(),
            VideoCodecId::AV1 => self.aom_frame matches Some(a) && a.wf(),
        }
    }

    /// The compressed frames not yet handed out, from the tagged side.
    pub open spec fn remaining(&self) -> Seq<EncodeFrameView> {
        match self.frame_type {
            VideoCodecId::VP8 | VideoCodecId::VP9 => self.vpx_frame->Some_0.remaining(),
            VideoCodecId::AV1 => self.aom_frame->Some_0.remaining(),
        }
    }

    /// Hands out the next compressed frame of the side the tag names.
    pub fn next(&mut self) -> (r: Option<EncodeFrame>)
        requires
            old(self).wf(),
        ensures
            final(self).wf(),
            final(self).frame_type == old(self).frame_type,
            old(self).remaining().len() == 0 ==> r is None && final(self).remaining().len() == 0,
            old(self).remaining().len() > 0 ==> (r matches Some(f) && f@ == old(
                self,
            ).remaining()[0] && final(self).remaining() == old(self).remaining().skip(1)),
    {
        match self.frame_type {
            VideoCodecId::VP8 | VideoCodecId::VP9 => match &mut self.vpx_frame {
                Some(v) => v.next(),
                None => unreached(),
            },
            VideoCodecId::AV1 => match &mut self.aom_frame {
                Some(a) => a.next(),
                None => unreached(),
            },
        }
    }
}

impl Default for EncodeFrames {
    /// An empty frame list for the default codec.
    fn default() -> (r: EncodeFrames)
        ensures
            r.vpx_frame is None && r.aom_frame is None && r.frame_type == VideoCodecId::VP9,
    {
        EncodeFrames { vpx_frame: None, aom_frame: None, frame_type: VideoCodecId::VP9 }
    }
}

/// A decoded frame tagged with the back end that produced it, used
/// purely for dispatch; the unified decoder hands its frames out in this
/// shape.
pub enum DecodedImage {
    Vpx(VpxImage),
    Aom(AomImage),
}

impl ImageApi for DecodedImage {
    open spec fn spec_frame(&self) -> Option<FrameData> {
        match self {
            DecodedImage::Vpx(img) => img.spec_frame(),
            DecodedImage::Aom(img) => img.spec_frame(),
        }
    }

    #[inline]
    fn new() -> (r: Self) {
        DecodedImage::Vpx(VpxImage::new())
    }

    #[inline]
    fn is_null(&self) -> (r: bool) {
        match self {
            DecodedImage::Vpx(img) => img.is_null(),
            DecodedImage::Aom(img) => img.is_null(),
        }
    }

    #[inline]
    fn width(&self) -> (r: usize) {
        match self {
            DecodedImage::Vpx(img) => img.width(),
            DecodedImage::Aom(img) => img.width(),
        }
    }

    #[inline]
    fn height(&self) -> (r: usize) {
        match self {
            DecodedImage::Vpx(img) => img.height(),
            DecodedImage::Aom(img) => img.height(),
        }
    }

    #[inline]
    fn stride(&self, iplane: usize) -> (r: i32) {
        match self {
            DecodedImage::Vpx(img) => img.stride(iplane),
            DecodedImage::Aom(img) => img.stride(iplane),
        }
    }

    fn rgb(&self, stride_align: usize, rgba: bool, dst: &mut Vec<u8>) {
        match self {
            DecodedImage::Vpx(img) => img.rgb(stride_align, rgba, dst),
            DecodedImage::Aom(img) => img.rgb(stride_align, rgba, dst),
        }
    }

    #[inline]
    fn data(&self) -> (r: (&[u8], &[u8], &[u8])) {
        match self {
            DecodedImage::Vpx(img) => img.data(),
            DecodedImage::Aom(img) => img.data(),
        }
    }
}

/// Classifies the two native statuses of a decode-then-drain round and
/// converts the last frame it handed back: a decode failure surfaces
/// first, then a flush failure; on success the last frame, if there is
/// one and it is not a null handle, is converted with unaligned rows.
pub fn drain_to_rgb<T: ImageApi>(
    what: &str,
    rgba: bool,
    decode_status: i32,
    flush_status: i32,
    decoded: Vec<T>,
    flushed: Vec<T>,
) -> (r: Result<Vec<u8>, Error>)
    requires
        forall|i: int| 0 <= i < decoded@.len() ==> #[trigger] img_ok(decoded@[i]),
        forall|i: int| 0 <= i < flushed@.len() ==> #[trigger] img_ok(flushed@[i]),
    ensures
        decode_status == 0 && flush_status == 0 <==> r is Ok,
        decode_status != 0 ==> (r matches Err(Error::FailedCall(m)) && m@ == failed_call_msg(
            decode_status as int,
            what@,
        )),
        decode_status == 0 && flush_status != 0 ==> (r matches Err(Error::FailedCall(m)) && m@
            == failed_call_msg(flush_status as int, what@)),
        decode_status == 0 && flush_status == 0 ==> (r matches Ok(out) && out@ == last_image_rgb(
            decoded@ + flushed@,
            rgba,
        )),
{
    match check_call(decode_status, what) {
        Err(e) => {
            return Err(e);
        },
        Ok(()) => {},
    }
    match check_call(flush_status, what) {
        Err(e) => {
            return Err(e);
        },
        Ok(()) => {},
    }
    let ghost dec = decoded@;
    let ghost flu = flushed@;
    let mut all = decoded;
    let mut fl = flushed;
    all.append(&mut fl);
    proof {
        assert(all@ == dec + flu);
        assert forall|i: int| 0 <= i < all@.len() implies #[trigger] img_ok(all@[i]) by {
            if i < dec.len() {
                assert(all@[i] == dec[i]);
            } else {
                assert(all@[i] == flu[i - dec.len()]);
            }
        }
    }
    let ghost whole = all@;
    match all.pop() {
        None => Ok(Vec::new()),
        Some(img) => {
            proof {
                assert(img_ok(whole[whole.len() - 1]));
            }
            let img = Image::new(img);
            if img.is_null() {
                Ok(Vec::new())
            } else {
                let mut out: Vec<u8> = Vec::new();
                img.rgb(1, rgba, &mut out);
                Ok(out)
            }
        },
    }
}

/// Unwraps a frame list known to carry the VP8/VP9 tag throughout.
fn vpx_images_of(frames: Vec<DecodedImage>) -> (r: Vec<VpxImage>)
    requires
        forall|i: int| 0 <= i < frames@.len() ==> (#[trigger] frames@[i]) is Vpx,
    ensures
        r@.len() == frames@.len(),
        forall|i: int| 0 <= i < r@.len() ==> (#[trigger] r@[i]) == frames@[i]->Vpx_0,
{
    let mut rest = frames;
    let ghost orig = rest@;
    let mut out: Vec<VpxImage> = Vec::new();
    while rest.len() > 0
        invariant
            out@.len() + rest@.len() == orig.len(),
            rest@ == orig.skip(out@.len() as int),
            forall|i: int| 0 <= i < out@.len() ==> (#[trigger] out@[i]) == orig[i]->Vpx_0,
            forall|i: int| 0 <= i < orig.len() ==> (#[trigger] orig[i]) is Vpx,
        decreases rest@.len(),
    {
        let ghost k = out@.len() as int;
        let f = rest.remove(0);
        proof {
            assert(f == orig[k]);
            assert(rest@ =~= orig.skip(k + 1));
        }
        match f {
            DecodedImage::Vpx(v) => out.push(v),
            DecodedImage::Aom(_) => unreached(),
        }
    }
    out
}

/// Unwraps a frame list known to carry the AV1 tag throughout.
fn aom_images_of(frames: Vec<DecodedImage>) -> (r: Vec<AomImage>)
    requires
        forall|i: int| 0 <= i < frames@.len() ==> (#[trigger] frames@[i]) is Aom,
    ensures
        r@.len() == frames@.len(),
        forall|i: int| 0 <= i < r@.len() ==> (#[trigger] r@[i]) == frames@[i]->Aom_0,
{
    let mut rest = frames;
    let ghost orig = rest@;
    let mut out: Vec<AomImage> = Vec::new();
    while rest.len() > 0
        invariant
            out@.len() + rest@.len() == orig.len(),
            rest@ == orig.skip(out@.len() as int),
            forall|i: int| 0 <= i < out@.len() ==> (#[trigger] out@[i]) == orig[i]->Aom_0,
            forall|i: int| 0 <= i < orig.len() ==> (#[trigger] orig[i]) is Aom,
        decreases rest@.len(),
    {
        let ghost k = out@.len() as int;
        let f = rest.remove(0);
        proof {
            assert(f == orig[k]);
            assert(rest@ =~= orig.skip(k + 1));
        }
        match f {
            DecodedImage::Aom(v) => out.push(v),
            DecodedImage::Vpx(_) => unreached(),
        }
    }
    out
}

/// Which back end a unified decoder drives.
pub enum DecoderBackend {
    Vpx(VpxDecoder),
    Aom(AomDecoder),
}

/// The unified decoder: one back end, picked by the codec selector.
pub struct Decoder {
    pub inner: DecoderBackend,
}

impl Decoder {
    /// The codec the underlying back end decodes.
    pub open spec fn codec_id(&self) -> VideoCodecId {
        match self.inner {
            DecoderBackend::Vpx(v) => v.decoder_type,
            DecoderBackend::Aom(a) => a.decoder_type,
        }
    }

    /// The name of the native call a decode is checked against.
    pub open spec fn dec_call_name(&self) -> Seq<char> {
        match self.inner {
            DecoderBackend::Vpx(v) => v.spec_call_name(),
            DecoderBackend::Aom(a) => a.spec_call_name(),
        }
    }

    /// Each back end stands behind its own codec tags; the constructor
    /// picks back ends so.
    pub open spec fn wf(&self) -> bool {
        match self.inner {
            DecoderBackend::Vpx(v) => v.decoder_type is VP8 || v.decoder_type is VP9,
            DecoderBackend::Aom(a) => a.decoder_type is AV1,
        }
    }

    /// Whether a tagged frame belongs to this decoder's back end.
    pub open spec fn owns_frame(&self, img: DecodedImage) -> bool {
        match self.inner {
            DecoderBackend::Vpx(_) => img is Vpx,
            DecoderBackend::Aom(_) => img is Aom,
        }
    }

    /// Create a new decoder
    ///
    /// Builds the back end that the codec selector asks for: the VP8/VP9
    /// back end for those two codecs, the AV1 back end for AV1. The
    /// derived configuration always exists; a native library that cannot
    /// provide the decoder reports that through `check_ptr` at the
    /// native seam.
    pub fn new(codec: VideoCodecId, num_threads: u32) -> (r: Result<Decoder, Error>)
        ensures
            r matches Ok(d) && d.wf(),
            r matches Ok(d) && match codec {
                VideoCodecId::VP8 | VideoCodecId::VP9 => d.inner matches DecoderBackend::Vpx(v)
                    && v.configured(codec, num_threads),
                VideoCodecId::AV1 => d.inner matches DecoderBackend::Aom(a) && a.configured(
                    codec,
                    num_threads,
                ),
            },
    {
        let inner = match codec {
            VideoCodecId::VP8 | VideoCodecId::VP9 => {
                match VpxDecoder::new(codec, num_threads) {
                    Ok(d) => DecoderBackend::Vpx(d),
                    Err(_) => unreached(),
                }
            },
            VideoCodecId::AV1 => {
                match AomDecoder::new(codec, num_threads) {
                    Ok(d) => DecoderBackend::Aom(d),
                    Err(_) => unreached(),
                }
            },
        };
        Ok(Decoder { inner })
    }

    /// Decodes one compressed buffer straight to a packed pixel buffer.
    pub fn decode2rgb(
        &mut self,
        data: &[u8],
        rgba: bool,
        decode_status: i32,
        flush_status: i32,
        decoded: Vec<DecodedImage>,
        flushed: Vec<DecodedImage>,
    ) -> (r: Result<Vec<u8>, Error>)
        requires
            forall|i: int| 0 <= i < decoded@.len() ==> #[trigger] img_ok(decoded@[i]),
            forall|i: int| 0 <= i < flushed@.len() ==> #[trigger] img_ok(flushed@[i]),
        ensures
            *final(self) == *old(self),
            decode_status == 0 && flush_status == 0 <==> r is Ok,
            decode_status != 0 ==> (r matches Err(Error::FailedCall(m)) && m@ == failed_call_msg(
                decode_status as int,
                old(self).dec_call_name(),
            )),
            decode_status == 0 && flush_status != 0 ==> (r matches Err(Error::FailedCall(m)) && m@
                == failed_call_msg(flush_status as int, old(self).dec_call_name())),
            decode_status == 0 && flush_status == 0 ==> (r matches Ok(out) && out@
                == last_image_rgb(decoded@ + flushed@, rgba)),
    {
        let what = match &self.inner {
            DecoderBackend::Vpx(_) => "vpx_codec_decode",
            DecoderBackend::Aom(_) => "aom_codec_decode",
        };
        drain_to_rgb(what, rgba, decode_status, flush_status, decoded, flushed)
    }

    /// Feeds one compressed buffer to the back end it drives; `status` is
    /// what the native decode call reported and `frames` is what its
    /// frame iterator handed back, each frame tagged with that back end.
    pub fn decode(&mut self, data: &[u8], status: i32, frames: Vec<DecodedImage>) -> (r: Result<
        DecodeFrames,
        Error,
    >)
        requires
            old(self).wf(),
            forall|i: int| 0 <= i < frames@.len() ==> #[trigger] img_present(frames@[i]),
            forall|i: int| 0 <= i < frames@.len() ==> #[trigger] old(self).owns_frame(frames@[i]),
        ensures
            *final(self) == *old(self),
            status == 0 <==> r is Ok,
            status != 0 ==> (r matches Err(Error::FailedCall(m)) && m@ == failed_call_msg(
                status as int,
                old(self).dec_call_name(),
            )),
            status == 0 ==> (r matches Ok(fr) && fr.wf() && fr.frame_type == old(self).codec_id()
                && fr.remaining() == frames@.map_values(|img: DecodedImage| img.spec_frame())),
    {
        let ghost orig = frames@;
        match &mut self.inner {
            DecoderBackend::Vpx(d) => {
                proof {
                    assert forall|i: int| 0 <= i < orig.len() implies (#[trigger] orig[i]) is Vpx by {
                        assert(old(self).owns_frame(orig[i]));
                    }
                }
                let imgs = vpx_images_of(frames);
                proof {
                    assert forall|i: int| 0 <= i < imgs@.len() implies #[trigger] img_present(
                        imgs@[i],
                    ) by {
                        assert(img_present(orig[i]));
                    }
                }
                let r = d.decode(data, status, imgs);
                proof {
                    if r is Ok {
                        let fr = r->Ok_0;
                        let mapped = orig.map_values(|img: DecodedImage| img.spec_frame());
                        assert forall|i: int| 0 <= i < orig.len() implies fr.remaining()[i]
                            == mapped[i] by {
                            assert(old(self).owns_frame(orig[i]));
                            assert(imgs@[i] == orig[i]->Vpx_0);
                        }
                        assert(fr.remaining() =~= mapped);
                    }
                }
                r
            },
            DecoderBackend::Aom(d) => {
                proof {
                    assert forall|i: int| 0 <= i < orig.len() implies (#[trigger] orig[i]) is Aom by {
                        assert(old(self).owns_frame(orig[i]));
                    }
                }
                let imgs = aom_images_of(frames);
                proof {
                    assert forall|i: int| 0 <= i < imgs@.len() implies #[trigger] img_present(
                        imgs@[i],
                    ) by {
                        assert(img_present(orig[i]));
                    }
                }
                let r = d.decode(data, status, imgs);
                proof {
                    if r is Ok {
                        let fr = r->Ok_0;
                        let mapped = orig.map_values(|img: DecodedImage| img.spec_frame());
                        assert forall|i: int| 0 <= i < orig.len() implies fr.remaining()[i]
                            == mapped[i] by {
                            assert(old(self).owns_frame(orig[i]));
                            assert(imgs@[i] == orig[i]->Aom_0);
                        }
                        assert(fr.remaining() =~= mapped);
                    }
                }
                r
            },
        }
    }

    /// Notify the decoder to return any pending frame
    pub fn flush(&mut self, status: i32, frames: Vec<DecodedImage>) -> (r: Result<
        DecodeFrames,
        Error,
    >)
        requires
            old(self).wf(),
            forall|i: int| 0 <= i < frames@.len() ==> #[trigger] img_present(frames@[i]),
            forall|i: int| 0 <= i < frames@.len() ==> #[trigger] old(self).owns_frame(frames@[i]),
        ensures
            *final(self) == *old(self),
            status == 0 <==> r is Ok,
            status != 0 ==> (r matches Err(Error::FailedCall(m)) && m@ == failed_call_msg(
                status as int,
                old(self).dec_call_name(),
            )),
            status == 0 ==> (r matches Ok(fr) && fr.wf() && fr.frame_type == old(self).codec_id()
                && fr.remaining() == frames@.map_values(|img: DecodedImage| img.spec_frame())),
    {
        let ghost orig = frames@;
        match &mut self.inner {
            DecoderBackend::Vpx(d) => {
                proof {
                    assert forall|i: int| 0 <= i < orig.len() implies (#[trigger] orig[i]) is Vpx by {
                        assert(old(self).owns_frame(orig[i]));
                    }
                }
                let imgs = vpx_images_of(frames);
                proof {
                    assert forall|i: int| 0 <= i < imgs@.len() implies #[trigger] img_present(
                        imgs@[i],
                    ) by {
                        assert(img_present(orig[i]));
                    }
                }
                let r = d.flush(status, imgs);
                proof {
                    if r is Ok {
                        let fr = r->Ok_0;
                        let mapped = orig.map_values(|img: DecodedImage| img.spec_frame());
                        assert forall|i: int| 0 <= i < orig.len() implies fr.remaining()[i]
                            == mapped[i] by {
                            assert(old(self).owns_frame(orig[i]));
                            assert(imgs@[i] == orig[i]->Vpx_0);
                        }
                        assert(fr.remaining() =~= mapped);
                    }
                }
                r
            },
            DecoderBackend::Aom(d) => {
                proof {
                    assert forall|i: int| 0 <= i < orig.len() implies (#[trigger] orig[i]) is Aom by {
                        assert(old(self).owns_frame(orig[i]));
                    }
                }
                let imgs = aom_images_of(frames);
                proof {
                    assert forall|i: int| 0 <= i < imgs@.len() implies #[trigger] img_present(
                        imgs@[i],
                    ) by {
                        assert(img_present(orig[i]));
                    }
                }
                let r = d.flush(status, imgs);
                proof {
                    if r is Ok {
                        let fr = r->Ok_0;
                        let mapped = orig.map_values(|img: DecodedImage| img.spec_frame());
                        assert forall|i: int| 0 <= i < orig.len() implies fr.remaining()[i]
                            == mapped[i] by {
                            assert(old(self).owns_frame(orig[i]));
                            assert(imgs@[i] == orig[i]->Aom_0);
                        }
                        assert(fr.remaining() =~= mapped);
                    }
                }
                r
            },
        }
    }
}

/// The decoded images of one decode or flush call, tagged with the back
/// end that produced them.
pub struct DecodeFrames {
    pub vpx_frame: Option<VpxDecodeFrames>,
    pub aom_frame: Option<AomDecodeFrames>,
    pub frame_type: VideoCodecId,
}

impl DecodeFrames {
    /// The side that the tag names is present.
    pub open spec fn wf(&self) -> bool {
        match self.frame_type {
            VideoCodecId::VP8 | VideoCodecId::VP9 => self.vpx_frame is Some,
            VideoCodecId::AV1 => self.aom_frame is Some,
        }
    }

    /// The frames not yet handed out, from the tagged side.
    pub open spec fn remaining(&self) -> Seq<Option<FrameData>> {
        match self.frame_type {
            VideoCodecId::VP8 | VideoCodecId::VP9 => self.vpx_frame->Some_0.remaining().map_values(
                |img: VpxImage| img.0,
            ),
            VideoCodecId::AV1 => self.aom_frame->Some_0.remaining().map_values(
                |img: AomImage| img.0,
            ),
        }
    }

    /// Hands out the next decoded image of the side the tag names.
    pub fn next(&mut self) -> (r: Option<Image<DecodedImage>>)
        requires
            old(self).wf(),
        ensures
            final(self).wf(),
            final(self).frame_type == old(self).frame_type,
            old(self).remaining().len() == 0 ==> r is None && final(self).remaining().len() == 0,
            old(self).remaining().len() > 0 ==> (r matches Some(img) && img.spec_frame() == old(
                self,
            ).remaining()[0] && final(self).remaining() == old(self).remaining().skip(1)),
    {
        match self.frame_type {
            VideoCodecId::VP8 | VideoCodecId::VP9 => match &mut self.vpx_frame {
                Some(v) => {
                    let ghost pre = v.remaining();
                    let r = match v.next() {
                        Some(w) => Some(Image::new(DecodedImage::Vpx(w.inner))),
                        None => None,
                    };
                    proof {
                        if pre.len() > 0 {
                            assert(v.remaining().map_values(|img: VpxImage| img.0) =~= pre
                                .map_values(|img: VpxImage| img.0).skip(1));
                        }
                    }
                    r
                },
                None => unreached(),
            },
            VideoCodecId::AV1 => match &mut self.aom_frame {
                Some(a) => {
                    let ghost pre = a.remaining();
                    let r = match a.next() {
                        Some(w) => Some(Image::new(DecodedImage::Aom(w.inner))),
                        None => None,
                    };
                    proof {
                        if pre.len() > 0 {
                            assert(a.remaining().map_values(|img: AomImage| img.0) =~= pre
                                .map_values(|img: AomImage| img.0).skip(1));
                        }
                    }
                    r
                },
                None => unreached(),
            },
        }
    }
}

} // verus!

//! The VP8/VP9 back end: encoder and decoder configuration, and the
//! iteration over the back end's output.

use crate::codec::{
    drain_to_rgb, frames_from, next_frame_packet, Config, CxPacket, DecodeFrames, DecoderApi,
    EncodeFrame, EncodeFrames, EncoderApi, Image, ImageApi, VideoCodecId,
};
use crate::error::{check_call, Error};
use crate::frame::{i420_to_rgb, FrameData};
use crate::sys::effective_threads;
use vstd::prelude::*;

verus! {

/// Which native codec interface a context was initialised with.
#[derive(Clone, Copy, Debug, PartialEq, Eq, Structural)]
pub enum VpxInterface {
    Vp8,
    Vp9,
}

/// The rate-control mode written into the native encoder configuration.
#[derive(Clone, Copy, Debug, PartialEq, Eq, Structural)]
pub enum VpxRcMode {
    Vbr,
    Cbr,
    Cq,
    Q,
}

/// The key-frame placement mode written into the native encoder
/// configuration.
#[derive(Clone, Copy, Debug, PartialEq, Eq, Structural)]
pub enum VpxKfMode {
    Fixed,
    Auto,
    Disabled,
}

/// The fields of the native encoder configuration that this layer sets;
/// a `None` quantizer bound leaves the native default in place.
#[derive(Clone, Copy, Debug, PartialEq, Eq, Structural)]
pub struct VpxEncCfg {
    pub g_w: u32,
    pub g_h: u32,
    pub g_timebase_num: i32,
    pub g_timebase_den: i32,
    pub rc_target_bitrate: u32,
    pub rc_undershoot_pct: u32,
    pub rc_dropframe_thresh: u32,
    pub rc_min_quantizer: Option<u32>,
    pub rc_max_quantizer: Option<u32>,
    pub g_threads: u32,
    pub g_error_resilient: u32,
    pub rc_end_usage: VpxRcMode,
    pub kf_mode: VpxKfMode,
}

/// The control values applied to a VP9 encoder context after
/// initialisation: internal speed, row multi-threading, and tile columns.
#[derive(Clone, Copy, Debug, PartialEq, Eq, Structural)]
pub struct Vp9Controls {
    pub cpu_used: i32,
    pub row_mt: i32,
    pub tile_columns: i32,
}

/// The default error-resilience flag of the native encoder configuration.
pub const VPX_ERROR_RESILIENT_DEFAULT: u32 = 1;

/// The encoder speed that is used when the caller asked for none.
pub open spec fn effective_speed(speed: i32) -> i32 {
    if speed <= 0 {
        6
    } else {
        speed
    }
}

/// An encoder context of the VP8/VP9 back end, as the configuration this
/// layer derived for it.
pub struct VpxEncoder {
    /// Which native interface the context was initialised with.
    pub iface: VpxInterface,
    /// The configuration written over the native defaults.
    pub cfg: VpxEncCfg,
    /// The controls applied afterwards; only a VP9 context gets any.
    pub controls: Option<Vp9Controls>,
    pub encoder_type: VideoCodecId,
}

impl VpxEncoder {
    /// The exact state a fresh encoder derives from the caller's settings:
    /// the VP8 interface only for the VP8 codec, constant-bitrate
    /// real-time configuration, quantizer bounds only where the caller
    /// gave one, and VP9 speed and threading controls.
    pub open spec fn configured(&self, config: Config, num_threads: u32) -> bool {
        &&& self.iface == (if config.codec is VP8 {
            VpxInterface::Vp8
        } else {
            VpxInterface::Vp9
        })
        &&& self.cfg.g_w == config.width
        &&& self.cfg.g_h == config.height
        &&& self.cfg.g_timebase_num == config.timebase@[0]
        &&& self.cfg.g_timebase_den == config.timebase@[1]
        &&& self.cfg.rc_target_bitrate == config.bitrate
        &&& self.cfg.rc_undershoot_pct == 95
        &&& self.cfg.rc_dropframe_thresh == 25
        &&& self.cfg.rc_min_quantizer == (if config.rc_min_quantizer > 0 {
            Some(config.rc_min_quantizer)
        } else {
            None
        })
        &&& self.cfg.rc_max_quantizer == (if config.rc_max_quantizer > 0 {
            Some(config.rc_max_quantizer)
        } else {
            None
        })
        &&& (num_threads != 0 ==> self.cfg.g_threads == num_threads)
        &&& self.cfg.g_threads >= 1
        &&& self.cfg.g_error_resilient == VPX_ERROR_RESILIENT_DEFAULT
        &&& self.cfg.rc_end_usage is Cbr
        &&& self.cfg.kf_mode is Disabled
        &&& self.controls == (if config.codec is VP9 {
            Some(
                Vp9Controls {
                    cpu_used: effective_speed(config.speed),
                    row_mt: 1,
                    tile_columns: 4,
                },
            )
        } else {
            None
        })
        &&& self.encoder_type == config.codec
    }

}

impl EncoderApi for VpxEncoder {
    open spec fn spec_configured(&self, config: Config, num_threads: u32) -> bool {
        self.configured(config, num_threads)
    }

    open spec fn spec_call_name(&self) -> Seq<char> {
        "vpx_codec_encode"@
    }

    open spec fn spec_wraps(&self, fr: EncodeFrames, packets: Seq<CxPacket>) -> bool {
        &&& fr.frame_type == self.encoder_type
        &&& fr.aom_frame is None
        &&& fr.vpx_frame matches Some(vf) && vf.packets@ == packets && vf.iter == 0
    }

    /// Derives the encoder state for the caller's settings. The native
    /// setup calls this stands for report their own failures through
    /// `check_call` and `check_ptr`.
    fn new(config: &Config, num_threads: u32) -> (r: Result<VpxEncoder, Error>) {
        let iface = match config.codec {
            VideoCodecId::VP8 => VpxInterface::Vp8,
            VideoCodecId::VP9 | VideoCodecId::AV1 => VpxInterface::Vp9,
        };
        let mut speed = config.speed;
        if speed <= 0 {
            speed = 6;
        }
        let cfg = VpxEncCfg {
            g_w: config.width,
            g_h: config.height,
            g_timebase_num: config.timebase[0],
            g_timebase_den: config.timebase[1],
            rc_target_bitrate: config.bitrate,
            rc_undershoot_pct: 95,
            rc_dropframe_thresh: 25,
            rc_min_quantizer: if config.rc_min_quantizer > 0 {
                Some(config.rc_min_quantizer)
            } else {
                None
            },
            rc_max_quantizer: if config.rc_max_quantizer > 0 {
                Some(config.rc_max_quantizer)
            } else {
                None
            },
            g_threads: effective_threads(num_threads),
            g_error_resilient: VPX_ERROR_RESILIENT_DEFAULT,
            rc_end_usage: VpxRcMode::Cbr,
            kf_mode: VpxKfMode::Disabled,
        };
        let controls = match config.codec {
            VideoCodecId::VP9 => Some(
                Vp9Controls { cpu_used: speed, row_mt: 1, tile_columns: 4 },
            ),
            VideoCodecId::VP8 | VideoCodecId::AV1 => None,
        };
        Ok(VpxEncoder { iface, cfg, controls, encoder_type: config.codec })
    }

    fn encode(
        &mut self,
        pts: i64,
        data: &[u8],
        stride_align: usize,
        width: usize,
        height: usize,
        status: i32,
        packets: Vec<CxPacket>,
    ) -> (r: Result<EncodeFrames, Error>) {
        match check_call(status, "vpx_codec_encode") {
            Err(e) => Err(e),
            Ok(()) => Ok(
                EncodeFrames {
                    vpx_frame: Some(VpxEncodeFrames { packets, iter: 0 }),
                    aom_frame: None,
                    frame_type: self.encoder_type,
                },
            ),
        }
    }

    fn flush(&mut self, status: i32, packets: Vec<CxPacket>) -> (r: Result<
        EncodeFrames,
        Error,
    >) {
        match check_call(status, "vpx_codec_encode") {
            Err(e) => Err(e),
            Ok(()) => Ok(
                EncodeFrames {
                    vpx_frame: Some(VpxEncodeFrames { packets, iter: 0 }),
                    aom_frame: None,
                    frame_type: self.encoder_type,
                },
            ),
        }
    }
}

/// A cursor over the packets that one VP8/VP9 encode call produced.
pub struct VpxEncodeFrames {
    pub packets: Vec<CxPacket>,
    pub iter: usize,
}

impl VpxEncodeFrames {
    /// The cursor sits inside the packet list.
    pub open spec fn wf(&self) -> bool {
        self.iter <= self.packets@.len()
    }

    /// The compressed frames not yet handed out.
    pub open spec fn remaining(&self) -> Seq<crate::codec::EncodeFrameView> {
        frames_from(self.packets@, self.iter as int)
    }

    /// Hands out the next compressed frame, skipping packets that do not
    /// carry one.
    pub fn next(&mut self) -> (r: Option<EncodeFrame>)
        requires
            old(self).wf(),
        ensures
            final(self).wf(),
            final(self).packets@ == old(self).packets@,
            old(self).remaining().len() == 0 ==> r is None && final(self).remaining().len() == 0,
            old(self).remaining().len() > 0 ==> (r matches Some(f) && f@ == old(
                self,
            ).remaining()[0] && final(self).remaining() == old(self).remaining().skip(1)),
    {
        next_frame_packet(&self.packets, &mut self.iter)
    }
}

/// The fields of the native decoder configuration that this layer sets.
#[derive(Clone, Copy, Debug, PartialEq, Eq, Structural)]
pub struct VpxDecCfg {
    pub threads: u32,
    pub w: u32,
    pub h: u32,
}

/// A decoder context of the VP8/VP9 back end.
pub struct VpxDecoder {
    /// Which native interface the context was initialised with.
    pub iface: VpxInterface,
    /// The configuration the context was initialised with.
    pub cfg: VpxDecCfg,
    pub decoder_type: VideoCodecId,
}

impl VpxDecoder {
    /// The exact state of a fresh decoder: the VP9 interface, unknown
    /// dimensions, and the requested thread count (or the machine's).
    pub open spec fn configured(&self, codec: VideoCodecId, num_threads: u32) -> bool {
        &&& self.iface is Vp9
        &&& self.cfg.w == 0
        &&& self.cfg.h == 0
        &&& (num_threads != 0 ==> self.cfg.threads == num_threads)
        &&& self.cfg.threads >= 1
        &&& self.decoder_type == codec
    }

}

impl DecoderApi for VpxDecoder {
    type Img = VpxImage;

    open spec fn spec_configured(&self, codec: VideoCodecId, num_threads: u32) -> bool {
        self.configured(codec, num_threads)
    }

    open spec fn spec_call_name(&self) -> Seq<char> {
        "vpx_codec_decode"@
    }

    open spec fn spec_wraps(&self, fr: DecodeFrames, frames: Seq<VpxImage>) -> bool {
        &&& fr.frame_type == self.decoder_type
        &&& fr.aom_frame is None
        &&& fr.vpx_frame matches Some(df) && df.remaining() == frames
    }

    /// Create a new decoder
    ///
    /// The function may fail if the underlying native library does not
    /// provide the VP9 decoder, which reports itself through `check_ptr`;
    /// the derived configuration itself always exists.
    fn new(codec: VideoCodecId, num_threads: u32) -> (r: Result<VpxDecoder, Error>) {
        let cfg = VpxDecCfg { threads: effective_threads(num_threads), w: 0, h: 0 };
        Ok(VpxDecoder { iface: VpxInterface::Vp9, cfg, decoder_type: codec })
    }

    /// Feed some compressed data to the decoder
    ///
    /// The `data` slice is sent to the decoder.
    ///
    /// It matches a call to `vpx_codec_decode`.
    fn decode(&mut self, data: &[u8], status: i32, frames: Vec<VpxImage>) -> (r: Result<
        DecodeFrames,
        Error,
    >) {
        match check_call(status, "vpx_codec_decode") {
            Err(e) => Err(e),
            Ok(()) => Ok(
                DecodeFrames {
                    vpx_frame: Some(VpxDecodeFrames { imgs: frames }),
                    aom_frame: None,
                    frame_type: self.decoder_type,
                },
            ),
        }
    }

    fn flush(&mut self, status: i32, frames: Vec<VpxImage>) -> (r: Result<DecodeFrames, Error>) {
        match check_call(status, "vpx_codec_decode") {
            Err(e) => Err(e),
            Ok(()) => Ok(
                DecodeFrames {
                    vpx_frame: Some(VpxDecodeFrames { imgs: frames }),
                    aom_frame: None,
                    frame_type: self.decoder_type,
                },
            ),
        }
    }

    fn decode2rgb(
        &mut self,
        data: &[u8],
        rgba: bool,
        decode_status: i32,
        flush_status: i32,
        decoded: Vec<VpxImage>,
        flushed: Vec<VpxImage>,
    ) -> (r: Result<Vec<u8>, Error>) {
        drain_to_rgb("vpx_codec_decode", rgba, decode_status, flush_status, decoded, flushed)
    }
}

/// A cursor over the frames that one VP8/VP9 decode call produced.
pub struct VpxDecodeFrames {
    imgs: Vec<VpxImage>,
}

impl VpxDecodeFrames {
    /// The decoded images not yet handed out.
    pub closed spec fn remaining(&self) -> Seq<VpxImage> {
        self.imgs@
    }

    /// Hands out the next decoded image.
    pub fn next(&mut self) -> (r: Option<Image<VpxImage>>)
        ensures
            old(self).remaining().len() == 0 ==> r is None && final(self).remaining().len() == 0,
            old(self).remaining().len() > 0 ==> (r matches Some(img) && img.spec_frame() == old(
                self,
            ).remaining()[0].0 && final(self).remaining() == old(self).remaining().skip(1)),
    {
        if self.imgs.len() == 0 {
            None
        } else {
            let img = self.imgs.remove(0);
            proof {
                assert(old(self).remaining().skip(1) =~= self.imgs@);
            }
            Some(Image::new(img))
        }
    }
}

/// A decoded image handle of the VP8/VP9 back end: null, or one I420
/// frame.
pub struct VpxImage(pub Option<FrameData>);

impl ImageApi for VpxImage {
    open spec fn spec_frame(&self) -> Option<FrameData> {
        self.0
    }

    #[inline]
    fn new() -> (r: Self) {
        VpxImage(None)
    }

    #[inline]
    fn is_null(&self) -> (r: bool) {
        self.0.is_none()
    }

    #[inline]
    fn width(&self) -> (r: usize) {
        match &self.0 {
            Some(f) => f.d_w as usize,
            None => unreached(),
        }
    }

    #[inline]
    fn height(&self) -> (r: usize) {
        match &self.0 {
            Some(f) => f.d_h as usize,
            None => unreached(),
        }
    }

    #[inline]
    fn stride(&self, iplane: usize) -> (r: i32) {
        match &self.0 {
            Some(f) => f.stride[iplane],
            None => unreached(),
        }
    }

    fn rgb(&self, stride_align: usize, rgba: bool, dst: &mut Vec<u8>) {
        match &self.0 {
            Some(f) => i420_to_rgb(f, stride_align, rgba, dst),
            None => unreached(),
        }
    }

    #[inline]
    fn data(&self) -> (r: (&[u8], &[u8], &[u8])) {
        match &self.0 {
            Some(f) => (f.y.as_slice(), f.u.as_slice(), f.v.as_slice()),
            None => unreached(),
        }
    }
}

} // verus!

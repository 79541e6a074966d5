//! The AV1 back end: encoder and decoder configuration, and the
//! iteration over the back end's output.

use crate::codec::{
    drain_to_rgb, frames_from, next_frame_packet, Config, CxPacket, DecodeFrames, DecoderApi,
    EncodeFrame, EncodeFrames, EncoderApi, Image, ImageApi, VideoCodecId,
};
use crate::error::{check_call, Error};
use crate::frame::{i420_to_rgb, FrameData};
use crate::sys::effective_threads;
use vstd::prelude::*;

verus! {

/// The key-frame placement mode written into the native encoder
/// configuration.
#[derive(Clone, Copy, Debug, PartialEq, Eq, Structural)]
pub enum AomKfMode {
    Auto,
    Disabled,
}

/// The rate-control mode written into the native encoder configuration.
#[derive(Clone, Copy, Debug, PartialEq, Eq, Structural)]
pub enum AomRcMode {
    Vbr,
    Cbr,
    Cq,
    Q,
}

/// The rate-control pass written into the native encoder configuration.
#[derive(Clone, Copy, Debug, PartialEq, Eq, Structural)]
pub enum AomPass {
    OnePass,
    FirstPass,
    LastPass,
}

/// The fields of the native encoder configuration that this layer sets;
/// a `None` quantizer bound leaves the native default in place.
#[derive(Clone, Copy, Debug, PartialEq, Eq, Structural)]
pub struct AomEncCfg {
    pub g_w: u32,
    pub g_h: u32,
    pub g_threads: u32,
    pub g_timebase_num: i32,
    pub g_timebase_den: i32,
    pub rc_target_bitrate: u32,
    pub g_input_bit_depth: u32,
    pub kf_mode: AomKfMode,
    pub rc_min_quantizer: Option<u32>,
    pub rc_max_quantizer: Option<u32>,
    pub g_usage: u32,
    pub g_error_resilient: u32,
    pub rc_end_usage: AomRcMode,
    pub g_pass: AomPass,
    pub g_lag_in_frames: u32,
}

/// The control values applied to an AV1 encoder context after
/// initialisation, in the order they are set.
#[derive(Clone, Copy, Debug, PartialEq, Eq, Structural)]
pub struct AomControls {
    pub cpu_used: u32,
    pub enable_cdef: i32,
    pub enable_tpl_model: i32,
    pub deltaq_mode: i32,
    pub aq_mode: i32,
    pub max_intra_bitrate_pct: i32,
    pub coeff_cost_upd_freq: i32,
    pub mode_cost_upd_freq: i32,
    pub mv_cost_upd_freq: i32,
}

/// The speed setting for the AV1 encoder's cpu-used control: small frames
/// on a machine with spare cores get the highest-quality real-time step,
/// large frames the fastest, everything else the middle step.
pub open spec fn spec_cpu_speed(width: u32, height: u32, number_of_cores: u32) -> u32 {
    if number_of_cores > 2 && width * height <= 320 * 180 {
        6u32
    } else if width * height >= 1280 * 720 {
        8u32
    } else {
        7u32
    }
}

/// An encoder context of the AV1 back end, as the configuration this
/// layer derived for it.
pub struct AomEncoder {
    /// The configuration written over the native defaults.
    pub cfg: AomEncCfg,
    /// The controls applied after initialisation.
    pub controls: AomControls,
}

impl AomEncoder {
    /// Picks the speed step for the frame size and core count.
    pub fn get_cpu_speed(width: u32, height: u32, number_of_cores: u32) -> (speed: u32)
        requires
            width * height <= u32::MAX,
        ensures
            speed == spec_cpu_speed(width, height, number_of_cores),
    {
        if number_of_cores > 2 && width * height <= 320 * 180 {
            return 6;
        } else if width * height >= 1280 * 720 {
            return 8;
        }
        7
    }

    /// The exact state a fresh encoder derives from the caller's
    /// settings: one-pass constant-bitrate real-time configuration with
    /// no look-ahead, quantizer bounds only where the caller gave one,
    /// and the low-latency control values.
    pub open spec fn configured(&self, config: Config, num_threads: u32) -> bool {
        &&& self.cfg == (AomEncCfg {
            g_w: config.width,
            g_h: config.height,
            g_threads: num_threads,
            g_timebase_num: config.timebase@[0],
            g_timebase_den: config.timebase@[1],
            rc_target_bitrate: config.bitrate,
            g_input_bit_depth: 8,
            kf_mode: AomKfMode::Disabled,
            rc_min_quantizer: if config.rc_min_quantizer > 0 {
                Some(config.rc_min_quantizer)
            } else {
                None
            },
            rc_max_quantizer: if config.rc_max_quantizer > 0 {
                Some(config.rc_max_quantizer)
            } else {
                None
            },
            g_usage: 1,
            g_error_resilient: 0,
            rc_end_usage: AomRcMode::Cbr,
            g_pass: AomPass::OnePass,
            g_lag_in_frames: 0,
        })
        &&& self.controls == (AomControls {
            cpu_used: spec_cpu_speed(config.width, config.height, num_threads),
            enable_cdef: 1,
            enable_tpl_model: 0,
            deltaq_mode: 0,
            aq_mode: 3,
            max_intra_bitrate_pct: 300,
            coeff_cost_upd_freq: 2,
            mode_cost_upd_freq: 2,
            mv_cost_upd_freq: 3,
        })
    }

}

impl EncoderApi for AomEncoder {
    open spec fn spec_configured(&self, config: Config, num_threads: u32) -> bool {
        self.configured(config, num_threads)
    }

    open spec fn spec_call_name(&self) -> Seq<char> {
        "aom_codec_encode"@
    }

    open spec fn spec_wraps(&self, fr: EncodeFrames, packets: Seq<CxPacket>) -> bool {
        &&& fr.frame_type == VideoCodecId::AV1
        &&& fr.vpx_frame is None
        &&& fr.aom_frame matches Some(af) && af.packets@ == packets && af.iter == 0
    }

    /// Derives the encoder state for the caller's settings. The native
    /// setup calls this stands for report their own failures through
    /// `check_call` and `check_ptr`.
    fn new(config: &Config, num_threads: u32) -> (r: Result<AomEncoder, Error>) {
        let cfg = AomEncCfg {
            g_w: config.width,
            g_h: config.height,
            g_threads: num_threads,
            g_timebase_num: config.timebase[0],
            g_timebase_den: config.timebase[1],
            rc_target_bitrate: config.bitrate,
            g_input_bit_depth: 8,
            kf_mode: AomKfMode::Disabled,
            rc_min_quantizer: if config.rc_min_quantizer > 0 {
                Some(config.rc_min_quantizer)
            } else {
                None
            },
            rc_max_quantizer: if config.rc_max_quantizer > 0 {
                Some(config.rc_max_quantizer)
            } else {
                None
            },
            g_usage: 1,  // 0 = good quality; 1 = real-time.
            g_error_resilient: 0,
            rc_end_usage: AomRcMode::Cbr,  // constant bitrate for low latency
            g_pass: AomPass::OnePass,
            g_lag_in_frames: 0,  // no look-ahead
        };
        let controls = AomControls {
            cpu_used: Self::get_cpu_speed(cfg.g_w, cfg.g_h, num_threads),
            enable_cdef: 1,
            enable_tpl_model: 0,
            deltaq_mode: 0,
            aq_mode: 3,
            max_intra_bitrate_pct: 300,
            coeff_cost_upd_freq: 2,
            mode_cost_upd_freq: 2,
            mv_cost_upd_freq: 3,
        };
        Ok(AomEncoder { cfg, controls })
    }

    fn encode(
        &mut self,
        pts: i64,
        data: &[u8],
        stride_align: usize,
        width: usize,
        height: usize,
        status: i32,
        packets: Vec<CxPacket>,
    ) -> (r: Result<EncodeFrames, Error>) {
        match check_call(status, "aom_codec_encode") {
            Err(e) => Err(e),
            Ok(()) => Ok(
                EncodeFrames {
                    aom_frame: Some(AomEncodeFrames { packets, iter: 0 }),
                    vpx_frame: None,
                    frame_type: VideoCodecId::AV1,
                },
            ),
        }
    }

    fn flush(&mut self, status: i32, packets: Vec<CxPacket>) -> (r: Result<
        EncodeFrames,
        Error,
    >) {
        match check_call(status, "aom_codec_encode") {
            Err(e) => Err(e),
            Ok(()) => Ok(
                EncodeFrames {
                    aom_frame: Some(AomEncodeFrames { packets, iter: 0 }),
                    vpx_frame: None,
                    frame_type: VideoCodecId::AV1,
                },
            ),
        }
    }
}

/// A cursor over the packets that one AV1 encode call produced.
pub struct AomEncodeFrames {
    pub packets: Vec<CxPacket>,
    pub iter: usize,
}

impl AomEncodeFrames {
    /// The cursor sits inside the packet list.
    pub open spec fn wf(&self) -> bool {
        self.iter <= self.packets@.len()
    }

    /// The compressed frames not yet handed out.
    pub open spec fn remaining(&self) -> Seq<crate::codec::EncodeFrameView> {
        frames_from(self.packets@, self.iter as int)
    }

    /// Hands out the next compressed frame, skipping packets that do not
    /// carry one.
    pub fn next(&mut self) -> (r: Option<EncodeFrame>)
        requires
            old(self).wf(),
        ensures
            final(self).wf(),
            final(self).packets@ == old(self).packets@,
            old(self).remaining().len() == 0 ==> r is None && final(self).remaining().len() == 0,
            old(self).remaining().len() > 0 ==> (r matches Some(f) && f@ == old(
                self,
            ).remaining()[0] && final(self).remaining() == old(self).remaining().skip(1)),
    {
        next_frame_packet(&self.packets, &mut self.iter)
    }
}

/// The fields of the native decoder configuration that this layer sets.
#[derive(Clone, Copy, Debug, PartialEq, Eq, Structural)]
pub struct AomDecCfg {
    pub threads: u32,
    pub w: u32,
    pub h: u32,
    pub allow_lowbitdepth: i32,
}

/// A decoder context of the AV1 back end.
pub struct AomDecoder {
    /// The configuration the context was initialised with.
    pub cfg: AomDecCfg,
    pub decoder_type: VideoCodecId,
}

impl AomDecoder {
    /// The exact state of a fresh decoder: unknown dimensions, low bit
    /// depth allowed, and the requested thread count (or the machine's).
    pub open spec fn configured(&self, codec: VideoCodecId, num_threads: u32) -> bool {
        &&& self.cfg.w == 0
        &&& self.cfg.h == 0
        &&& self.cfg.allow_lowbitdepth == 1
        &&& (num_threads != 0 ==> self.cfg.threads == num_threads)
        &&& self.cfg.threads >= 1
        &&& self.decoder_type == codec
    }

}

impl DecoderApi for AomDecoder {
    type Img = AomImage;

    open spec fn spec_configured(&self, codec: VideoCodecId, num_threads: u32) -> bool {
        self.configured(codec, num_threads)
    }

    open spec fn spec_call_name(&self) -> Seq<char> {
        "aom_codec_decode"@
    }

    open spec fn spec_wraps(&self, fr: DecodeFrames, frames: Seq<AomImage>) -> bool {
        &&& fr.frame_type == self.decoder_type
        &&& fr.vpx_frame is None
        &&& fr.aom_frame matches Some(af) && af.remaining() == frames
    }

    /// Derives the decoder state. The native setup calls this stands for
    /// report their own failures through `check_call` and `check_ptr`.
    fn new(codec: VideoCodecId, num_threads: u32) -> (r: Result<AomDecoder, Error>) {
        let cfg = AomDecCfg {
            threads: effective_threads(num_threads),
            w: 0,
            h: 0,
            allow_lowbitdepth: 1,
        };
        Ok(AomDecoder { cfg, decoder_type: codec })
    }

    fn decode(&mut self, data: &[u8], status: i32, frames: Vec<AomImage>) -> (r: Result<
        DecodeFrames,
        Error,
    >) {
        match check_call(status, "aom_codec_decode") {
            Err(e) => Err(e),
            Ok(()) => Ok(
                DecodeFrames {
                    aom_frame: Some(AomDecodeFrames { imgs: frames }),
                    vpx_frame: None,
                    frame_type: self.decoder_type,
                },
            ),
        }
    }

    fn flush(&mut self, status: i32, frames: Vec<AomImage>) -> (r: Result<DecodeFrames, Error>) {
        match check_call(status, "aom_codec_decode") {
            Err(e) => Err(e),
            Ok(()) => Ok(
                DecodeFrames {
                    aom_frame: Some(AomDecodeFrames { imgs: frames }),
                    vpx_frame: None,
                    frame_type: self.decoder_type,
                },
            ),
        }
    }

    fn decode2rgb(
        &mut self,
        data: &[u8],
        rgba: bool,
        decode_status: i32,
        flush_status: i32,
        decoded: Vec<AomImage>,
        flushed: Vec<AomImage>,
    ) -> (r: Result<Vec<u8>, Error>) {
        drain_to_rgb("aom_codec_decode", rgba, decode_status, flush_status, decoded, flushed)
    }
}

/// A cursor over the frames that one AV1 decode call produced.
pub struct AomDecodeFrames {
    imgs: Vec<AomImage>,
}

impl AomDecodeFrames {
    /// The decoded images not yet handed out.
    pub closed spec fn remaining(&self) -> Seq<AomImage> {
        self.imgs@
    }

    /// Hands out the next decoded image.
    pub fn next(&mut self) -> (r: Option<Image<AomImage>>)
        ensures
            old(self).remaining().len() == 0 ==> r is None && final(self).remaining().len() == 0,
            old(self).remaining().len() > 0 ==> (r matches Some(img) && img.spec_frame() == old(
                self,
            ).remaining()[0].0 && final(self).remaining() == old(self).remaining().skip(1)),
    {
        if self.imgs.len() == 0 {
            None
        } else {
            let img = self.imgs.remove(0);
            proof {
                assert(old(self).remaining().skip(1) =~= self.imgs@);
            }
            Some(Image::new(img))
        }
    }
}

/// A decoded image handle of the AV1 back end: null, or one I420 frame.
pub struct AomImage(pub Option<FrameData>);

impl ImageApi for AomImage {
    open spec fn spec_frame(&self) -> Option<FrameData> {
        self.0
    }

    #[inline]
    fn new() -> (r: Self) {
        AomImage(None)
    }

    #[inline]
    fn is_null(&self) -> (r: bool) {
        self.0.is_none()
    }

    #[inline]
    fn width(&self) -> (r: usize) {
        match &self.0 {
            Some(f) => f.d_w as usize,
            None => unreached(),
        }
    }

    #[inline]
    fn height(&self) -> (r: usize) {
        match &self.0 {
            Some(f) => f.d_h as usize,
            None => unreached(),
        }
    }

    #[inline]
    fn stride(&self, iplane: usize) -> (r: i32) {
        match &self.0 {
            Some(f) => f.stride[iplane],
            None => unreached(),
        }
    }

    fn rgb(&self, stride_align: usize, rgba: bool, dst: &mut Vec<u8>) {
        match &self.0 {
            Some(f) => i420_to_rgb(f, stride_align, rgba, dst),
            None => unreached(),
        }
    }

    #[inline]
    fn data(&self) -> (r: (&[u8], &[u8], &[u8])) {
        match &self.0 {
            Some(f) => (f.y.as_slice(), f.u.as_slice(), f.v.as_slice()),
            None => unreached(),
        }
    }
}

} // verus!

use scrap::aom::{AomDecoder, AomEncoder, AomImage, AomKfMode, AomPass, AomRcMode};
use scrap::codec::{
    Config, CxPacket, CxPacketKind, DecodedImage, Decoder, DecoderApi, DecoderBackend, Encoder,
    EncoderApi, EncoderBackend, Image, ImageApi, VideoCodecId,
};
use scrap::error::Error;
use scrap::frame::FrameData;
use scrap::vpx::{Vp9Controls, VpxDecoder, VpxEncoder, VpxImage, VpxInterface, VpxKfMode, VpxRcMode};

fn config(codec: VideoCodecId) -> Config {
    Config {
        width: 640,
        height: 480,
        timebase: [1, 1000],
        bitrate: 1024,
        codec,
        rc_min_quantizer: 0,
        rc_max_quantizer: 56,
        speed: 0,
    }
}

fn frame_packet(bytes: &[u8], key: bool, pts: i64) -> CxPacket {
    CxPacket {
        kind: CxPacketKind::FramePkt,
        data: bytes.to_vec(),
        flags: if key { 1 } else { 0 },
        pts,
    }
}

fn stats_packet() -> CxPacket {
    CxPacket { kind: CxPacketKind::Other, data: vec![9, 9, 9], flags: 1, pts: -1 }
}

fn gray_image() -> VpxImage {
    VpxImage(Some(FrameData {
        d_w: 2,
        d_h: 2,
        stride: [2, 1, 1, 0],
        y: vec![81, 81, 81, 81],
        u: vec![128],
        v: vec![128],
    }))
}

#[test]
fn default_codec_is_vp9() {
    assert_eq!(VideoCodecId::default(), VideoCodecId::VP9);
}

#[test]
fn cpu_speed_steps() {
    assert_eq!(AomEncoder::get_cpu_speed(320, 180, 4), 6);
    assert_eq!(AomEncoder::get_cpu_speed(320, 180, 2), 7);
    assert_eq!(AomEncoder::get_cpu_speed(1280, 720, 1), 8);
    assert_eq!(AomEncoder::get_cpu_speed(640, 360, 4), 7);
}

#[test]
fn vpx_encoder_configuration() {
    let e = VpxEncoder::new(&config(VideoCodecId::VP9), 4).unwrap();
    assert_eq!(e.iface, VpxInterface::Vp9);
    assert_eq!(e.encoder_type, VideoCodecId::VP9);
    assert_eq!(e.cfg.g_w, 640);
    assert_eq!(e.cfg.g_h, 480);
    assert_eq!(e.cfg.g_timebase_num, 1);
    assert_eq!(e.cfg.g_timebase_den, 1000);
    assert_eq!(e.cfg.rc_target_bitrate, 1024);
    assert_eq!(e.cfg.rc_undershoot_pct, 95);
    assert_eq!(e.cfg.rc_dropframe_thresh, 25);
    assert_eq!(e.cfg.rc_min_quantizer, None);
    assert_eq!(e.cfg.rc_max_quantizer, Some(56));
    assert_eq!(e.cfg.g_threads, 4);
    assert_eq!(e.cfg.g_error_resilient, 1);
    assert_eq!(e.cfg.rc_end_usage, VpxRcMode::Cbr);
    assert_eq!(e.cfg.kf_mode, VpxKfMode::Disabled);
    // The caller asked for no particular speed, so VP9 runs at speed 6.
    assert_eq!(e.controls, Some(Vp9Controls { cpu_used: 6, row_mt: 1, tile_columns: 4 }));
}

#[test]
fn vpx_encoder_vp8_has_no_controls() {
    let e = VpxEncoder::new(&config(VideoCodecId::VP8), 2).unwrap();
    assert_eq!(e.iface, VpxInterface::Vp8);
    assert_eq!(e.controls, None);
}

#[test]
fn vpx_encoder_keeps_positive_speed() {
    let mut c = config(VideoCodecId::VP9);
    c.speed = 3;
    let e = VpxEncoder::new(&c, 1).unwrap();
    assert_eq!(e.controls.unwrap().cpu_used, 3);
}

#[test]
fn aom_encoder_configuration() {
    let mut c = config(VideoCodecId::AV1);
    c.rc_min_quantizer = 12;
    let e = AomEncoder::new(&c, 2).unwrap();
    assert_eq!(e.cfg.g_w, 640);
    assert_eq!(e.cfg.g_h, 480);
    assert_eq!(e.cfg.g_threads, 2);
    assert_eq!(e.cfg.g_input_bit_depth, 8);
    assert_eq!(e.cfg.kf_mode, AomKfMode::Disabled);
    assert_eq!(e.cfg.rc_min_quantizer, Some(12));
    assert_eq!(e.cfg.rc_max_quantizer, Some(56));
    assert_eq!(e.cfg.g_usage, 1);
    assert_eq!(e.cfg.g_error_resilient, 0);
    assert_eq!(e.cfg.rc_end_usage, AomRcMode::Cbr);
    assert_eq!(e.cfg.g_pass, AomPass::OnePass);
    assert_eq!(e.cfg.g_lag_in_frames, 0);
    // 640 * 480 is neither small nor 720p-large: the middle speed step.
    assert_eq!(e.controls.cpu_used, 7);
    assert_eq!(e.controls.enable_cdef, 1);
    assert_eq!(e.controls.enable_tpl_model, 0);
    assert_eq!(e.controls.deltaq_mode, 0);
    assert_eq!(e.controls.aq_mode, 3);
    assert_eq!(e.controls.max_intra_bitrate_pct, 300);
    assert_eq!(e.controls.coeff_cost_upd_freq, 2);
    assert_eq!(e.controls.mode_cost_upd_freq, 2);
    assert_eq!(e.controls.mv_cost_upd_freq, 3);
}

#[test]
fn encoder_dispatches_by_codec() {
    let enc = Encoder::new(&config(VideoCodecId::VP8), 1).unwrap();
    assert!(matches!(enc.inner, EncoderBackend::Vpx(_)));
    assert_eq!(enc.width, 640);
    assert_eq!(enc.height, 480);
    let enc = Encoder::new(&config(VideoCodecId::AV1), 1).unwrap();
    assert!(matches!(enc.inner, EncoderBackend::Aom(_)));
}

#[test]
fn encode_filters_frame_packets() {
    let mut enc = Encoder::new(&config(VideoCodecId::VP9), 1).unwrap();
    let data = vec![0u8; 640 * 480 * 3 / 2];
    let packets = vec![
        stats_packet(),
        frame_packet(&[1, 2, 3], true, 10),
        stats_packet(),
        frame_packet(&[4, 5], false, 11),
    ];
    let mut frames = enc.encode(10, &data, 1, 0, packets).unwrap();
    assert_eq!(frames.frame_type, VideoCodecId::VP9);
    let f = frames.next().unwrap();
    assert_eq!(f.data, vec![1, 2, 3]);
    assert!(f.key);
    assert_eq!(f.pts, 10);
    let f = frames.next().unwrap();
    assert_eq!(f.data, vec![4, 5]);
    assert!(!f.key);
    assert_eq!(f.pts, 11);
    assert!(frames.next().is_none());
    assert!(frames.next().is_none());
}

#[test]
fn encode_surfaces_native_status() {
    let mut enc = Encoder::new(&config(VideoCodecId::VP9), 1).unwrap();
    let data = vec![0u8; 640 * 480 * 3 / 2];
    match enc.encode(0, &data, 1, 5, Vec::new()) {
        Err(Error::FailedCall(m)) => assert_eq!(m, "errcode=5 vpx_codec_encode"),
        _ => panic!("expected the native status to surface"),
    }
}

#[test]
fn aom_encode_surfaces_native_status() {
    let mut enc = Encoder::new(&config(VideoCodecId::AV1), 1).unwrap();
    let data = vec![0u8; 640 * 480 * 3 / 2];
    match enc.encode(0, &data, 1, -2, Vec::new()) {
        Err(Error::FailedCall(m)) => assert_eq!(m, "errcode=-2 aom_codec_encode"),
        _ => panic!("expected the native status to surface"),
    }
}

#[test]
fn encoder_flush_wraps_pending_packets() {
    let mut enc = Encoder::new(&config(VideoCodecId::AV1), 1).unwrap();
    let mut frames = enc.flush(0, vec![frame_packet(&[8], true, 12)]).unwrap();
    assert_eq!(frames.frame_type, VideoCodecId::AV1);
    let f = frames.next().unwrap();
    assert_eq!(f.data, vec![8]);
    assert!(frames.next().is_none());
}

fn aom_gray_image() -> AomImage {
    AomImage(Some(FrameData {
        d_w: 2,
        d_h: 2,
        stride: [2, 1, 1, 0],
        y: vec![81, 81, 81, 81],
        u: vec![128],
        v: vec![128],
    }))
}

#[test]
fn decoder_dispatches_by_codec() {
    let dec = Decoder::new(VideoCodecId::VP9, 2).unwrap();
    match dec.inner {
        DecoderBackend::Vpx(v) => {
            assert_eq!(v.iface, VpxInterface::Vp9);
            assert_eq!(v.decoder_type, VideoCodecId::VP9);
            assert_eq!(v.cfg.threads, 2);
            assert_eq!(v.cfg.w, 0);
            assert_eq!(v.cfg.h, 0);
        }
        DecoderBackend::Aom(_) => panic!("VP9 must use the VP8/VP9 back end"),
    }
    let dec = Decoder::new(VideoCodecId::AV1, 2).unwrap();
    match dec.inner {
        DecoderBackend::Aom(a) => {
            assert_eq!(a.decoder_type, VideoCodecId::AV1);
            assert_eq!(a.cfg.threads, 2);
            assert_eq!(a.cfg.allow_lowbitdepth, 1);
        }
        DecoderBackend::Vpx(_) => panic!("AV1 must use the AV1 back end"),
    }
}

#[test]
fn decode_hands_frames_out_in_order() {
    let mut dec = Decoder::new(VideoCodecId::VP9, 1).unwrap();
    let white = VpxImage(Some(FrameData {
        d_w: 1,
        d_h: 1,
        stride: [1, 1, 1, 0],
        y: vec![235, 0],
        u: vec![128],
        v: vec![128],
    }));
    let mut frames = dec
        .decode(
            &[1, 2, 3],
            0,
            vec![DecodedImage::Vpx(gray_image()), DecodedImage::Vpx(white)],
        )
        .unwrap();
    assert_eq!(frames.frame_type, VideoCodecId::VP9);
    let img = frames.next().unwrap();
    assert!(!img.is_null());
    assert_eq!(img.width(), 2);
    assert_eq!(img.height(), 2);
    assert_eq!(img.stride(0), 2);
    assert_eq!(img.stride(1), 1);
    let img = frames.next().unwrap();
    assert_eq!(img.width(), 1);
    assert!(frames.next().is_none());
}

#[test]
fn av1_decode_flows_through_the_av1_backend() {
    let mut dec = Decoder::new(VideoCodecId::AV1, 1).unwrap();
    let mut frames = dec
        .decode(&[1, 2, 3], 0, vec![DecodedImage::Aom(aom_gray_image())])
        .unwrap();
    assert_eq!(frames.frame_type, VideoCodecId::AV1);
    assert!(frames.vpx_frame.is_none());
    let img = frames.next().unwrap();
    assert!(!img.is_null());
    assert_eq!(img.width(), 2);
    assert!(frames.next().is_none());
}

#[test]
fn av1_decode_surfaces_native_status() {
    let mut dec = Decoder::new(VideoCodecId::AV1, 1).unwrap();
    match dec.decode(&[1], 3, Vec::new()) {
        Err(Error::FailedCall(m)) => assert_eq!(m, "errcode=3 aom_codec_decode"),
        _ => panic!("expected the native status to surface"),
    }
}

#[test]
fn decode_surfaces_native_status() {
    let mut dec = Decoder::new(VideoCodecId::VP9, 1).unwrap();
    match dec.decode(&[1], -1, Vec::new()) {
        Err(Error::FailedCall(m)) => assert_eq!(m, "errcode=-1 vpx_codec_decode"),
        _ => panic!("expected the native status to surface"),
    }
}

#[test]
fn decoder_flush_hands_out_pending_frames() {
    let mut dec = Decoder::new(VideoCodecId::VP9, 1).unwrap();
    let mut frames = dec.flush(0, vec![DecodedImage::Vpx(gray_image())]).unwrap();
    assert!(frames.next().is_some());
    assert!(frames.next().is_none());
}

#[test]
fn decode2rgb_converts_the_last_frame() {
    let mut dec = Decoder::new(VideoCodecId::VP9, 1).unwrap();
    let out = dec
        .decode2rgb(&[1], false, 0, 0, vec![DecodedImage::Vpx(gray_image())], Vec::new())
        .unwrap();
    assert_eq!(out, vec![76u8; 12]);
}

#[test]
fn decode2rgb_without_frames_is_empty() {
    let mut dec = Decoder::new(VideoCodecId::VP9, 1).unwrap();
    let out = dec.decode2rgb(&[1], true, 0, 0, Vec::new(), Vec::new()).unwrap();
    assert!(out.is_empty());
}

#[test]
fn decode2rgb_surfaces_flush_status() {
    let mut dec = Decoder::new(VideoCodecId::VP9, 1).unwrap();
    match dec.decode2rgb(&[1], false, 0, 4, vec![DecodedImage::Vpx(gray_image())], Vec::new()) {
        Err(Error::FailedCall(m)) => assert_eq!(m, "errcode=4 vpx_codec_decode"),
        _ => panic!("expected the native status to surface"),
    }
}

#[test]
fn aom_decoder_and_frames() {
    let mut dec = AomDecoder::new(VideoCodecId::AV1, 0).unwrap();
    assert!(dec.cfg.threads >= 1);
    assert_eq!(dec.cfg.allow_lowbitdepth, 1);
    let frames = dec.decode(&[1, 2], 0, vec![aom_gray_image()]).unwrap();
    let mut af = frames.aom_frame.unwrap();
    assert!(frames.vpx_frame.is_none());
    let img = af.next().unwrap();
    assert!(!img.is_null());
    assert_eq!(img.height(), 2);
    assert!(af.next().is_none());
}

#[test]
fn aom_decode2rgb_converts_the_last_frame() {
    let mut dec = AomDecoder::new(VideoCodecId::AV1, 1).unwrap();
    let out = dec
        .decode2rgb(&[1], true, 0, 0, Vec::new(), vec![aom_gray_image()])
        .unwrap();
    assert_eq!(out, vec![76, 76, 76, 255, 76, 76, 76, 255, 76, 76, 76, 255, 76, 76, 76, 255]);
}

#[test]
fn image_data_returns_the_planes() {
    let img = Image::new(gray_image());
    let (y, u, v) = img.data();
    assert_eq!(y, &[81, 81, 81, 81]);
    assert_eq!(u, &[128]);
    assert_eq!(v, &[128]);
}

#[test]
fn null_images() {
    let img: Image<VpxImage> = Image::new(VpxImage::new());
    assert!(img.is_null());
    let img: Image<AomImage> = Image::new(AomImage::new());
    assert!(img.is_null());
}

#[test]
fn vpx_decoder_thread_fallback() {
    let dec = VpxDecoder::new(VideoCodecId::VP8, 0).unwrap();
    assert!(dec.cfg.threads >= 1);
}

#[test]
fn encode_frames_default_is_empty_vp9() {
    let frames = scrap::codec::EncodeFrames::default();
    assert!(frames.vpx_frame.is_none());
    assert!(frames.aom_frame.is_none());
    assert_eq!(frames.frame_type, VideoCodecId::VP9);
}

#[test]
fn decode2rgb_null_last_frame_is_empty() {
    let mut dec = Decoder::new(VideoCodecId::VP9, 1).unwrap();
    let out = dec
        .decode2rgb(
            &[1],
            false,
            0,
            0,
            vec![DecodedImage::Vpx(gray_image())],
            vec![DecodedImage::Vpx(VpxImage(None))],
        )
        .unwrap();
    assert!(out.is_empty());
}

use scrap::error::{check_call, check_ptr, Error};
use scrap::frame::{align_up, i420_to_rgb, yuv_to_rgb, FrameData};
use scrap::menu::{
    action_for_tag, app_menu_entries, MenuAction, MenuEntry, RUN_ME_TAG, SHOW_ABOUT_TAG,
    SHOW_SETTINGS_TAG, TERMINATE_TAG,
};
use scrap::sys::effective_threads;

fn two_by_two() -> FrameData {
    // Luma: black, white, mid gray, black; chroma neutral.
    FrameData {
        d_w: 2,
        d_h: 2,
        stride: [2, 1, 1, 0],
        y: vec![16, 235, 81, 16],
        u: vec![128],
        v: vec![128],
    }
}

#[test]
fn yuv_black_white_red() {
    assert_eq!(yuv_to_rgb(16, 128, 128), (0, 0, 0));
    assert_eq!(yuv_to_rgb(235, 128, 128), (255, 255, 255));
    assert_eq!(yuv_to_rgb(81, 90, 240), (255, 0, 0));
    assert_eq!(yuv_to_rgb(81, 128, 128), (76, 76, 76));
}

#[test]
fn yuv_clamps_both_ends() {
    // Saturated chroma pushes red below zero and blue above 255.
    assert_eq!(yuv_to_rgb(16, 255, 0), (0, 54, 255));
    assert_eq!(yuv_to_rgb(255, 255, 255), (255, 125, 255));
}

#[test]
fn align_up_values() {
    assert_eq!(align_up(5, 4), 8);
    assert_eq!(align_up(8, 4), 8);
    assert_eq!(align_up(7, 1), 7);
    assert_eq!(align_up(1, 16), 16);
}

#[test]
fn rgb_two_by_two_unaligned() {
    let f = two_by_two();
    let mut dst = Vec::new();
    i420_to_rgb(&f, 1, false, &mut dst);
    assert_eq!(dst, vec![0, 0, 0, 255, 255, 255, 76, 76, 76, 0, 0, 0]);
}

#[test]
fn rgba_two_by_two_unaligned() {
    let f = two_by_two();
    let mut dst = Vec::new();
    i420_to_rgb(&f, 1, true, &mut dst);
    assert_eq!(
        dst,
        vec![0, 0, 0, 255, 255, 255, 255, 255, 76, 76, 76, 255, 0, 0, 0, 255]
    );
}

#[test]
fn rgb_two_by_two_aligned_rows_are_padded() {
    let f = two_by_two();
    let mut dst = vec![9, 9];
    i420_to_rgb(&f, 4, false, &mut dst);
    assert_eq!(
        dst,
        vec![
            0, 0, 0, 255, 255, 255, 0, 0, 0, 0, 0, 0, //
            76, 76, 76, 0, 0, 0, 0, 0, 0, 0, 0, 0,
        ]
    );
}

#[test]
fn rgb_odd_height_uses_evened_chroma_rows() {
    // A 1x1 image still stores one chroma sample and an even luma plane.
    let f = FrameData {
        d_w: 1,
        d_h: 1,
        stride: [1, 1, 1, 0],
        y: vec![81, 0],
        u: vec![90],
        v: vec![240],
    };
    let mut dst = Vec::new();
    i420_to_rgb(&f, 1, false, &mut dst);
    assert_eq!(dst, vec![255, 0, 0]);
}

#[test]
fn check_call_success() {
    assert!(check_call(0, "vpx_codec_decode").is_ok());
}

#[test]
fn check_call_reports_exact_code() {
    match check_call(7, "vpx_codec_decode") {
        Err(Error::FailedCall(m)) => assert_eq!(m, "errcode=7 vpx_codec_decode"),
        _ => panic!("expected a failed call"),
    }
}

#[test]
fn check_call_reports_negative_code() {
    match check_call(-3, "aom_codec_encode") {
        Err(Error::FailedCall(m)) => assert_eq!(m, "errcode=-3 aom_codec_encode"),
        _ => panic!("expected a failed call"),
    }
}

#[test]
fn check_call_reports_extreme_code() {
    match check_call(i32::MIN, "x") {
        Err(Error::FailedCall(m)) => assert_eq!(m, "errcode=-2147483648 x"),
        _ => panic!("expected a failed call"),
    }
}

#[test]
fn check_ptr_classifies_null() {
    assert!(check_ptr(false, "vpx_codec_vp9_cx").is_ok());
    match check_ptr(true, "vpx_codec_vp9_cx") {
        Err(e @ Error::BadPtr(_)) => {
            assert_eq!(e.message(), "null pointer vpx_codec_vp9_cx");
        }
        _ => panic!("expected a bad pointer"),
    }
}

#[test]
fn error_message_of_failed_call() {
    match check_call(12, "call") {
        Err(e) => assert_eq!(e.message(), "errcode=12 call"),
        Ok(()) => panic!("expected a failed call"),
    }
}

#[test]
fn effective_threads_fallback() {
    assert!(effective_threads(0) >= 1);
    assert_eq!(effective_threads(3), 3);
}

#[test]
fn actions_for_tags() {
    assert_eq!(action_for_tag(TERMINATE_TAG), MenuAction::Terminate);
    assert_eq!(action_for_tag(SHOW_ABOUT_TAG), MenuAction::ShowAbout);
    assert_eq!(action_for_tag(SHOW_SETTINGS_TAG), MenuAction::ShowSettings);
    assert_eq!(action_for_tag(RUN_ME_TAG), MenuAction::RunMe);
    assert_eq!(action_for_tag(77), MenuAction::Ignore);
}

fn assert_item(e: &MenuEntry, title: &str, key: &str, tag: u32) {
    match e {
        MenuEntry::Item { title: t, key: k, tag: g } => {
            assert_eq!(t, title);
            assert_eq!(k, key);
            assert_eq!(*g, tag);
        }
        MenuEntry::Separator => panic!("expected an item, found a separator"),
    }
}

#[test]
fn main_panel_menu() {
    let entries = app_menu_entries(false, "GoDesk");
    assert_eq!(entries.len(), 5);
    assert_item(&entries[0], "About", "a", SHOW_ABOUT_TAG);
    assert!(matches!(entries[1], MenuEntry::Separator));
    assert_item(&entries[2], "Settings", "s", SHOW_SETTINGS_TAG);
    assert!(matches!(entries[3], MenuEntry::Separator));
    assert_item(&entries[4], "Quit GoDesk", "q", TERMINATE_TAG);
}

#[test]
fn secondary_window_menu() {
    let entries = app_menu_entries(true, "GoDesk");
    assert_eq!(entries.len(), 3);
    assert_item(&entries[0], "New Window", "n", RUN_ME_TAG);
    assert!(matches!(entries[1], MenuEntry::Separator));
    assert_item(&entries[2], "Quit GoDesk", "q", TERMINATE_TAG);
}

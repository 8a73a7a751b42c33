use footage::info::Dimensions;
use footage::orientation::VideoOrientation;
use footage::preview::{LoadedVideo, VideoPreviewState};

fn loaded() -> VideoPreviewState {
    let mut p = VideoPreviewState::new();
    p.load(Dimensions { width: 1920, height: 1080 }, 10_000, false);
    p
}

fn video(p: &VideoPreviewState) -> LoadedVideo {
    p.loaded.expect("a video is loaded")
}

#[test]
fn nothing_loaded() {
    let mut p = VideoPreviewState::new();
    assert_eq!(p.inpoint(), 0);
    assert_eq!(p.outpoint(), 0);
    assert!(!p.pause());
    assert_eq!(p.play(), None);
    assert_eq!(p.quiet_seek(5), None);
    assert!(!p.rotate_right());
    assert!(!p.mute());
    assert!(!p.refresh());
    assert!(!p.kill());
}

#[test]
fn fresh_video_keeps_everything() {
    let p = loaded();
    assert_eq!((p.inpoint(), p.outpoint()), (0, 10_000));
    let v = video(&p);
    assert_eq!(v.orientation, VideoOrientation::Identity);
    assert!(!v.ended);
}

#[test]
fn rotation_swaps_shown_dimensions() {
    let mut p = loaded();
    assert!(p.rotate_right());
    let v = video(&p);
    assert_eq!(v.orientation, VideoOrientation::R90);
    assert_eq!((v.current_dimensions.width, v.current_dimensions.height), (1080, 1920));
    assert!(p.rotate_left());
    let v = video(&p);
    assert_eq!(v.orientation, VideoOrientation::Identity);
    assert_eq!((v.current_dimensions.width, v.current_dimensions.height), (1920, 1080));
}

#[test]
fn flips_keep_shown_dimensions() {
    let mut p = loaded();
    assert!(p.rotate_left());
    assert!(p.horizontal_flip());
    let v = video(&p);
    assert_eq!(v.orientation, VideoOrientation::FR90);
    assert_eq!((v.current_dimensions.width, v.current_dimensions.height), (1080, 1920));
    assert!(p.vertical_flip());
    assert_eq!(video(&p).orientation, VideoOrientation::R90);
}

#[test]
fn seeking_to_end_then_playing_restarts() {
    let mut p = loaded();
    p.set_range(2_000, 8_000);
    assert_eq!((p.inpoint(), p.outpoint()), (2_000, 8_000));
    assert_eq!(p.quiet_seek(5_000), Some(5_000));
    assert!(!video(&p).ended);
    assert_eq!(p.play(), Some(None));
    assert_eq!(p.quiet_seek(8_000), Some(8_000));
    assert!(video(&p).ended);
    assert_eq!(p.play(), Some(Some(2_000)));
    assert!(!video(&p).ended);
}

#[test]
fn muting() {
    let mut p = loaded();
    assert!(p.mute());
    assert!(video(&p).mute);
    assert!(p.unmute());
    assert!(!video(&p).mute);
}

#[test]
fn refresh_keeps_edits() {
    let mut p = loaded();
    p.rotate_right();
    p.set_range(1, 2);
    p.quiet_seek(2);
    assert!(p.refresh());
    let v = video(&p);
    assert_eq!(v.orientation, VideoOrientation::R90);
    assert_eq!((v.inpoint, v.outpoint, v.ended), (1, 2, false));
    assert_eq!((v.current_dimensions.width, v.current_dimensions.height), (1080, 1920));
}

#[test]
fn kill_drops_video() {
    let mut p = loaded();
    assert!(p.kill());
    assert!(p.loaded.is_none());
}

#[test]
fn render_window() {
    let mut p = loaded();
    p.set_range(1_500, 4_000);
    assert_eq!(video(&p).render_window(), (1_500, 2_500));
}

#[test]
fn end_of_stream_then_play_restarts() {
    let mut p = loaded();
    p.set_range(300, 900);
    p.end_of_stream();
    assert!(video(&p).ended);
    assert_eq!(p.play(), Some(Some(300)));
    let mut empty = VideoPreviewState::new();
    empty.end_of_stream();
    assert!(empty.loaded.is_none());
}

use footage::crop::ArrowKey;
use footage::timeline::{
    timeline_cursor, timeline_key_move, TimelineCursor, TimelineDrag, TimelineHandle,
    TimelineMove, TimelineState,
};

fn loaded(duration: u64) -> TimelineState {
    let mut t = TimelineState::new();
    t.set_duration(duration);
    t.set_range(Some((0, duration)));
    t
}

#[test]
fn new_timeline_is_empty() {
    let t = TimelineState::new();
    assert_eq!((t.position, t.duration, t.range), (0, 0, Some((0, 0))));
    assert_eq!(t.visibility(), (false, false));
}

#[test]
fn visibility_follows_duration_and_range() {
    let mut t = loaded(1000);
    assert_eq!(t.visibility(), (true, true));
    t.set_range(None);
    assert_eq!(t.visibility(), (true, false));
}

#[test]
fn position_is_clamped_to_range() {
    let mut t = loaded(1000);
    t.set_range(Some((100, 900)));
    t.set_position(50);
    assert_eq!(t.position, 100);
    t.set_position(950);
    assert_eq!(t.position, 900);
    t.set_position(500);
    assert_eq!(t.position, 500);
}

#[test]
fn dragging_start_past_end_swaps_roles() {
    let mut t = loaded(1000);
    t.set_range(Some((100, 900)));
    t.start_drag(true, false);
    assert_eq!(t.drag_type, Some(TimelineDrag::Start));
    t.drag_to(300);
    assert_eq!(t.range, Some((300, 900)));
    t.drag_to(950);
    assert_eq!(t.range, Some((900, 950)));
    assert_eq!(t.drag_type, Some(TimelineDrag::End));
}

#[test]
fn dragging_end_before_start_swaps_roles() {
    let mut t = loaded(1000);
    t.set_range(Some((100, 900)));
    t.start_drag(true, true);
    assert_eq!(t.drag_type, Some(TimelineDrag::End));
    t.drag_to(50);
    assert_eq!(t.range, Some((50, 100)));
    assert_eq!(t.drag_type, Some(TimelineDrag::Start));
    assert_eq!(t.position, 100);
}

#[test]
fn dragging_playback_leaves_range() {
    let mut t = loaded(1000);
    t.start_drag(false, false);
    assert_eq!(t.drag_type, Some(TimelineDrag::Playback));
    t.drag_to(400);
    assert_eq!(t.range, Some((0, 1000)));
    assert_eq!(t.position, 400);
}

#[test]
fn arrow_keys_move_ends() {
    let mut t = loaded(1000);
    t.bring_start_forward();
    assert_eq!((t.range, t.position), (Some((250, 1000)), 250));
    t.bring_start_back();
    t.bring_start_back();
    assert_eq!((t.range, t.position), (Some((0, 1000)), 0));
    t.bring_end_back();
    assert_eq!((t.range, t.position), (Some((0, 750)), 750));
    t.bring_end_forward();
    t.bring_end_forward();
    assert_eq!((t.range, t.position), (Some((0, 1000)), 1000));
}

#[test]
fn arrow_keys_stop_at_other_end() {
    let mut t = loaded(1000);
    t.set_range(Some((400, 500)));
    t.bring_start_forward();
    assert_eq!(t.range, Some((500, 500)));
    t.set_range(Some((400, 500)));
    t.bring_end_back();
    assert_eq!(t.range, Some((400, 400)));
}

#[test]
fn cursor_names() {
    assert_eq!(timeline_cursor(true, false, true), TimelineCursor::StartEnd);
    assert_eq!(timeline_cursor(false, true, true), TimelineCursor::Normal);
    assert_eq!(TimelineCursor::Normal.gtk_cursor_name(), "default");
    assert_eq!(TimelineCursor::StartEnd.gtk_cursor_name(), "col-resize");
}

#[test]
fn steps_cancel() {
    let mut t = loaded(5000);
    t.set_range(Some((1000, 4000)));
    t.bring_start_forward();
    t.bring_start_back();
    assert_eq!(t.range, Some((1000, 4000)));
    t.bring_end_back();
    t.bring_end_forward();
    assert_eq!(t.range, Some((1000, 4000)));
    assert_eq!(t.position, 4000);
}

#[test]
fn arrow_keys_on_timeline_handles() {
    assert_eq!(timeline_key_move(TimelineHandle::Start, ArrowKey::Left), Some(TimelineMove::StartBack));
    assert_eq!(timeline_key_move(TimelineHandle::Start, ArrowKey::Right), Some(TimelineMove::StartForward));
    assert_eq!(timeline_key_move(TimelineHandle::End, ArrowKey::Left), Some(TimelineMove::EndBack));
    assert_eq!(timeline_key_move(TimelineHandle::End, ArrowKey::Right), Some(TimelineMove::EndForward));
    assert_eq!(timeline_key_move(TimelineHandle::Start, ArrowKey::Up), None);
    assert_eq!(timeline_key_move(TimelineHandle::End, ArrowKey::Down), None);
}

#[test]
fn start_forward_on_reversed_range() {
    let mut t = loaded(1000);
    t.set_range(Some((900, 100)));
    t.bring_start_forward();
    assert_eq!((t.range, t.position), (Some((100, 100)), 100));
}

use footage::crop::{
    cursor_for_drag, drag_type_from_nearest_sides, horizontal_flip_proportions, key_move,
    rotate_left_proportions, rotate_right_proportions, vertical_flip_proportions, ArrowKey,
    CropHandle, CursorType, DragType, EdgeMove,
};

#[test]
fn proportions_follow_turns() {
    let p = (0.1f64, 0.2, 0.3, 0.4);
    assert_eq!(rotate_right_proportions(p), (0.4, 0.1, 0.2, 0.3));
    assert_eq!(rotate_left_proportions(p), (0.2, 0.3, 0.4, 0.1));
    assert_eq!(rotate_left_proportions(rotate_right_proportions(p)), p);
    let mut q = p;
    for _ in 0..4 {
        q = rotate_right_proportions(q);
    }
    assert_eq!(q, p);
}

#[test]
fn proportions_follow_flips() {
    let p = (1u32, 2, 3, 4);
    assert_eq!(vertical_flip_proportions(p), (3, 2, 1, 4));
    assert_eq!(vertical_flip_proportions(vertical_flip_proportions(p)), p);
    assert_eq!(horizontal_flip_proportions(p), (1, 4, 3, 4));
    assert_eq!(horizontal_flip_proportions(horizontal_flip_proportions(p)), (1, 4, 3, 4));
    let symmetric = (1u32, 5, 3, 5);
    assert_eq!(horizontal_flip_proportions(horizontal_flip_proportions(symmetric)), symmetric);
}

#[test]
fn drag_far_from_edges() {
    assert_eq!(drag_type_from_nearest_sides(0, 1, true, false, true, true), Some(DragType::All));
    assert_eq!(drag_type_from_nearest_sides(0, 1, true, false, true, false), None);
}

#[test]
fn drag_one_edge() {
    assert_eq!(drag_type_from_nearest_sides(2, 1, false, true, true, true), Some(DragType::Bottom));
    assert_eq!(drag_type_from_nearest_sides(3, 1, false, true, true, false), Some(DragType::Left));
    assert_eq!(drag_type_from_nearest_sides(3, 1, false, false, true, false), None);
}

#[test]
fn drag_corners() {
    assert_eq!(drag_type_from_nearest_sides(0, 3, false, true, false, true), Some(DragType::TopLeft));
    assert_eq!(drag_type_from_nearest_sides(3, 0, false, true, false, true), Some(DragType::TopLeft));
    assert_eq!(drag_type_from_nearest_sides(1, 0, false, true, false, true), Some(DragType::TopRight));
    assert_eq!(drag_type_from_nearest_sides(2, 3, false, true, false, true), Some(DragType::BottomLeft));
    assert_eq!(drag_type_from_nearest_sides(1, 2, false, true, false, true), Some(DragType::BottomRight));
    assert_eq!(drag_type_from_nearest_sides(0, 2, false, true, false, true), Some(DragType::Top));
}

#[test]
fn cursors() {
    assert_eq!(cursor_for_drag(None), CursorType::Normal);
    assert_eq!(cursor_for_drag(Some(DragType::All)), CursorType::All);
    assert_eq!(cursor_for_drag(Some(DragType::BottomLeft)), CursorType::BottomLeft);
    assert_eq!(CursorType::Normal.gtk_cursor_name(), "default");
    assert_eq!(CursorType::Top.gtk_cursor_name(), "n-resize");
    assert_eq!(CursorType::BottomRight.gtk_cursor_name(), "se-resize");
    assert_eq!(CursorType::All.gtk_cursor_name(), "move");
}

#[test]
fn arrow_keys_on_handles() {
    assert_eq!(key_move(CropHandle::TopLeft, ArrowKey::Down), EdgeMove::TopDown);
    assert_eq!(key_move(CropHandle::BottomLeft, ArrowKey::Up), EdgeMove::BottomUp);
    assert_eq!(key_move(CropHandle::TopRight, ArrowKey::Left), EdgeMove::RightLeft);
    assert_eq!(key_move(CropHandle::BottomRight, ArrowKey::Right), EdgeMove::RightRight);
    assert_eq!(key_move(CropHandle::BottomLeft, ArrowKey::Right), EdgeMove::LeftRight);
}

#[test]
fn two_flips_and_half_turn() {
    let symmetric = (1u32, 5, 3, 5);
    let half_turn = rotate_right_proportions(rotate_right_proportions(symmetric));
    assert_eq!(vertical_flip_proportions(horizontal_flip_proportions(symmetric)), half_turn);
    assert_eq!(horizontal_flip_proportions(vertical_flip_proportions(symmetric)), half_turn);
    let lopsided = (1u32, 2, 3, 4);
    assert_ne!(
        vertical_flip_proportions(horizontal_flip_proportions(lopsided)),
        rotate_right_proportions(rotate_right_proportions(lopsided))
    );
}

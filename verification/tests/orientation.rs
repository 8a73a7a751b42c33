use footage::orientation::{VideoOrientation, VideoOrientationTransformation};

const ALL: [VideoOrientation; 8] = [
    VideoOrientation::Identity,
    VideoOrientation::R90,
    VideoOrientation::R180,
    VideoOrientation::R270,
    VideoOrientation::FlippedIdentity,
    VideoOrientation::FR90,
    VideoOrientation::FR180,
    VideoOrientation::FR270,
];

const OPS: [VideoOrientationTransformation; 4] = [
    VideoOrientationTransformation::RotateRight,
    VideoOrientationTransformation::RotateLeft,
    VideoOrientationTransformation::HorizontalFlip,
    VideoOrientationTransformation::VerticalFlip,
];

#[test]
fn default_is_identity() {
    assert_eq!(VideoOrientation::default(), VideoOrientation::Identity);
}

#[test]
fn rotate_right_cycles() {
    assert_eq!(VideoOrientation::Identity.rotate_right(), VideoOrientation::R90);
    assert_eq!(VideoOrientation::R90.rotate_right(), VideoOrientation::R180);
    assert_eq!(VideoOrientation::R180.rotate_right(), VideoOrientation::R270);
    assert_eq!(VideoOrientation::R270.rotate_right(), VideoOrientation::Identity);
    assert_eq!(VideoOrientation::FlippedIdentity.rotate_right(), VideoOrientation::FR90);
    assert_eq!(VideoOrientation::FR270.rotate_right(), VideoOrientation::FlippedIdentity);
}

#[test]
fn rotate_left_cycles() {
    assert_eq!(VideoOrientation::Identity.rotate_left(), VideoOrientation::R270);
    assert_eq!(VideoOrientation::R90.rotate_left(), VideoOrientation::Identity);
    assert_eq!(VideoOrientation::FlippedIdentity.rotate_left(), VideoOrientation::FR270);
    assert_eq!(VideoOrientation::FR180.rotate_left(), VideoOrientation::FR90);
}

#[test]
fn flips_pair_up() {
    assert_eq!(VideoOrientation::Identity.horizontal_flip(), VideoOrientation::FlippedIdentity);
    assert_eq!(VideoOrientation::R90.horizontal_flip(), VideoOrientation::FR270);
    assert_eq!(VideoOrientation::R270.horizontal_flip(), VideoOrientation::FR90);
    assert_eq!(VideoOrientation::Identity.vertical_flip(), VideoOrientation::FR180);
    assert_eq!(VideoOrientation::R180.vertical_flip(), VideoOrientation::FlippedIdentity);
    assert_eq!(VideoOrientation::R90.vertical_flip(), VideoOrientation::FR90);
}

#[test]
fn transform_dispatches() {
    for o in ALL {
        assert_eq!(o.transform(VideoOrientationTransformation::RotateRight), o.rotate_right());
        assert_eq!(o.transform(VideoOrientationTransformation::RotateLeft), o.rotate_left());
        assert_eq!(o.transform(VideoOrientationTransformation::HorizontalFlip), o.horizontal_flip());
        assert_eq!(o.transform(VideoOrientationTransformation::VerticalFlip), o.vertical_flip());
    }
}

#[test]
fn swapped_for_odd_quarter_turns() {
    let swapped: Vec<bool> = ALL.iter().map(|o| o.is_width_height_swapped()).collect();
    assert_eq!(swapped, vec![false, true, false, true, false, true, false, true]);
}

#[test]
fn only_rotations_swap() {
    assert!(VideoOrientationTransformation::RotateRight.does_swap_width_height());
    assert!(VideoOrientationTransformation::RotateLeft.does_swap_width_height());
    assert!(!VideoOrientationTransformation::HorizontalFlip.does_swap_width_height());
    assert!(!VideoOrientationTransformation::VerticalFlip.does_swap_width_height());
}

#[test]
fn orientation_laws_on_every_value() {
    for o in ALL {
        assert_eq!(o.rotate_right().rotate_left(), o);
        assert_eq!(o.rotate_left().rotate_right(), o);
        assert_eq!(o.rotate_right().rotate_right().rotate_right().rotate_right(), o);
        assert_eq!(o.horizontal_flip().horizontal_flip(), o);
        assert_eq!(o.vertical_flip().vertical_flip(), o);
        assert_eq!(o.horizontal_flip().vertical_flip(), o.rotate_right().rotate_right());
        for t in OPS {
            assert_eq!(
                o.transform(t).is_width_height_swapped(),
                o.is_width_height_swapped() != t.does_swap_width_height()
            );
        }
    }
}

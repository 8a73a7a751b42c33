//! The eight orientations a video frame can take under quarter turns and
//! mirror flips, and the four editing operations that move between them.
//!
//! Mathematically an orientation is an element of the dihedral group of the
//! square. Its view is a pair `(turns, flipped)`: `turns` counts clockwise
//! quarter turns (0..4) and `flipped` says whether the frame is mirrored
//! (a horizontal mirror applied before the turns).
use vstd::prelude::*;

verus! {

/// An orientation of the video frame.
#[derive(Debug, Clone, Copy, PartialEq, Eq, Structural)]
pub enum VideoOrientation {
    Identity,
    R90,
    R180,
    R270,
    FlippedIdentity,
    FR90,
    FR180,
    FR270,
}

/// An editing operation on the orientation of the frame.
#[derive(Debug, Clone, Copy, PartialEq, Eq, Structural)]
pub enum VideoOrientationTransformation {
    RotateRight,
    RotateLeft,
    HorizontalFlip,
    VerticalFlip,
}

/// The dihedral model of an orientation: clockwise quarter turns and a mirror bit.
pub type OrientationModel = (int, bool);

impl View for VideoOrientation {
    type V = OrientationModel;

    open spec fn view(&self) -> OrientationModel {
        match self {
            VideoOrientation::Identity => (0, false),
            VideoOrientation::R90 => (1, false),
            VideoOrientation::R180 => (2, false),
            VideoOrientation::R270 => (3, false),
            VideoOrientation::FlippedIdentity => (0, true),
            VideoOrientation::FR90 => (1, true),
            VideoOrientation::FR180 => (2, true),
            VideoOrientation::FR270 => (3, true),
        }
    }
}

/// A pair `(turns, flipped)` that stands for some orientation.
pub open spec fn valid_model(m: OrientationModel) -> bool {
    0 <= m.0 < 4
}

/// One more clockwise quarter turn.
pub open spec fn model_rotate_right(m: OrientationModel) -> OrientationModel {
    ((m.0 + 1) % 4, m.1)
}

/// One more counter-clockwise quarter turn.
pub open spec fn model_rotate_left(m: OrientationModel) -> OrientationModel {
    ((m.0 + 3) % 4, m.1)
}

/// Mirror about the vertical axis: the turns are reversed and the mirror bit toggles.
pub open spec fn model_horizontal_flip(m: OrientationModel) -> OrientationModel {
    ((4 - m.0) % 4, !m.1)
}

/// Mirror about the horizontal axis: a horizontal mirror followed by a half turn.
pub open spec fn model_vertical_flip(m: OrientationModel) -> OrientationModel {
    ((6 - m.0) % 4, !m.1)
}

/// What an editing operation does to the model.
pub open spec fn model_transform(
    m: OrientationModel,
    t: VideoOrientationTransformation,
) -> OrientationModel {
    match t {
        VideoOrientationTransformation::RotateRight => model_rotate_right(m),
        VideoOrientationTransformation::RotateLeft => model_rotate_left(m),
        VideoOrientationTransformation::HorizontalFlip => model_horizontal_flip(m),
        VideoOrientationTransformation::VerticalFlip => model_vertical_flip(m),
    }
}

/// Width and height trade places exactly when the frame is turned an odd
/// number of quarter turns.
pub open spec fn model_swaps_width_height(m: OrientationModel) -> bool {
    m.0 % 2 == 1
}

/// Whether an operation, applied to any orientation, trades width and height.
pub open spec fn transformation_swaps(t: VideoOrientationTransformation) -> bool {
    t == VideoOrientationTransformation::RotateRight || t
        == VideoOrientationTransformation::RotateLeft
}

impl VideoOrientation {
    /// The orientation whose model is `m`.
    pub open spec fn from_model(m: OrientationModel) -> VideoOrientation {
        if m.1 {
            if m.0 == 0 {
                VideoOrientation::FlippedIdentity
            } else if m.0 == 1 {
                VideoOrientation::FR90
            } else if m.0 == 2 {
                VideoOrientation::FR180
            } else {
                VideoOrientation::FR270
            }
        } else {
            if m.0 == 0 {
                VideoOrientation::Identity
            } else if m.0 == 1 {
                VideoOrientation::R90
            } else if m.0 == 2 {
                VideoOrientation::R180
            } else {
                VideoOrientation::R270
            }
        }
    }

    /// Applies an editing operation.
    #[verifier::allow_in_spec]
    pub fn transform(&self, transformation: VideoOrientationTransformation) -> (r: VideoOrientation)
        ensures
            r@ == model_transform(self@, transformation),
        returns
            VideoOrientation::from_model(model_transform(self@, transformation)),
    {
        match transformation {
            VideoOrientationTransformation::RotateRight => self.rotate_right(),
            VideoOrientationTransformation::RotateLeft => self.rotate_left(),
            VideoOrientationTransformation::HorizontalFlip => self.horizontal_flip(),
            VideoOrientationTransformation::VerticalFlip => self.vertical_flip(),
        }
    }

    /// Turns the frame a quarter turn clockwise.
    #[verifier::allow_in_spec]
    pub fn rotate_right(&self) -> (r: VideoOrientation)
        ensures
            r@ == model_rotate_right(self@),
        returns
            VideoOrientation::from_model(model_rotate_right(self@)),
    {
        match self {
            VideoOrientation::Identity => VideoOrientation::R90,
            VideoOrientation::R90 => VideoOrientation::R180,
            VideoOrientation::R180 => VideoOrientation::R270,
            VideoOrientation::R270 => VideoOrientation::Identity,
            VideoOrientation::FlippedIdentity => VideoOrientation::FR90,
            VideoOrientation::FR90 => VideoOrientation::FR180,
            VideoOrientation::FR180 => VideoOrientation::FR270,
            VideoOrientation::FR270 => VideoOrientation::FlippedIdentity,
        }
    }

    /// Turns the frame a quarter turn counter-clockwise.
    #[verifier::allow_in_spec]
    pub fn rotate_left(&self) -> (r: VideoOrientation)
        ensures
            r@ == model_rotate_left(self@),
        returns
            VideoOrientation::from_model(model_rotate_left(self@)),
    {
        match self {
            VideoOrientation::R90 => VideoOrientation::Identity,
            VideoOrientation::R180 => VideoOrientation::R90,
            VideoOrientation::R270 => VideoOrientation::R180,
            VideoOrientation::Identity => VideoOrientation::R270,
            VideoOrientation::FR90 => VideoOrientation::FlippedIdentity,
            VideoOrientation::FR180 => VideoOrientation::FR90,
            VideoOrientation::FR270 => VideoOrientation::FR180,
            VideoOrientation::FlippedIdentity => VideoOrientation::FR270,
        }
    }

    /// Mirrors the frame left to right.
    #[verifier::allow_in_spec]
    pub fn horizontal_flip(&self) -> (r: VideoOrientation)
        ensures
            r@ == model_horizontal_flip(self@),
        returns
            VideoOrientation::from_model(model_horizontal_flip(self@)),
    {
        match self {
            VideoOrientation::Identity => VideoOrientation::FlippedIdentity,
            VideoOrientation::FlippedIdentity => VideoOrientation::Identity,
            VideoOrientation::R90 => VideoOrientation::FR270,
            VideoOrientation::FR270 => VideoOrientation::R90,
            VideoOrientation::R180 => VideoOrientation::FR180,
            VideoOrientation::FR180 => VideoOrientation::R180,
            VideoOrientation::R270 => VideoOrientation::FR90,
            VideoOrientation::FR90 => VideoOrientation::R270,
        }
    }

    /// Mirrors the frame top to bottom.
    #[verifier::allow_in_spec]
    pub fn vertical_flip(&self) -> (r: VideoOrientation)
        ensures
            r@ == model_vertical_flip(self@),
        returns
            VideoOrientation::from_model(model_vertical_flip(self@)),
    {
        match self {
            VideoOrientation::Identity => VideoOrientation::FR180,
            VideoOrientation::FR180 => VideoOrientation::Identity,
            VideoOrientation::R90 => VideoOrientation::FR90,
            VideoOrientation::FR90 => VideoOrientation::R90,
            VideoOrientation::R180 => VideoOrientation::FlippedIdentity,
            VideoOrientation::FlippedIdentity => VideoOrientation::R180,
            VideoOrientation::R270 => VideoOrientation::FR270,
            VideoOrientation::FR270 => VideoOrientation::R270,
        }
    }

    /// Whether the displayed frame has width and height traded.
    #[verifier::allow_in_spec]
    pub fn is_width_height_swapped(&self) -> (r: bool)
        ensures
            r == model_swaps_width_height(self@),
            r <==> (*self == VideoOrientation::R90 || *self == VideoOrientation::R270 || *self
                == VideoOrientation::FR90 || *self == VideoOrientation::FR270),
        returns
            model_swaps_width_height(self@),
    {
        match self {
            VideoOrientation::R90 | VideoOrientation::R270 | VideoOrientation::FR90
            | VideoOrientation::FR270 => true,
            _ => false,
        }
    }
}

impl Default for VideoOrientation {
    /// The orientation of a freshly opened video.
    fn default() -> (r: VideoOrientation)
        ensures
            r == VideoOrientation::Identity,
    {
        VideoOrientation::Identity
    }
}

impl VideoOrientationTransformation {
    /// Whether this operation trades width and height.
    #[verifier::allow_in_spec]
    pub fn does_swap_width_height(&self) -> (r: bool)
        ensures
            r == transformation_swaps(*self),
        returns
            transformation_swaps(*self),
    {
        match self {
            VideoOrientationTransformation::RotateRight
            | VideoOrientationTransformation::RotateLeft => true,
            _ => false,
        }
    }
}

/// The model of every orientation is valid, and the model determines the orientation.
pub proof fn lemma_view_is_faithful(o: VideoOrientation)
    ensures
        valid_model(o@),
        VideoOrientation::from_model(o@) == o,
{
}

/// Two orientations with the same model are the same orientation.
pub proof fn lemma_view_injective(a: VideoOrientation, b: VideoOrientation)
    ensures
        a@ == b@ ==> a == b,
{
}

/// Every valid model stands for an orientation.
pub proof fn lemma_model_surjective(m: OrientationModel)
    requires
        valid_model(m),
    ensures
        VideoOrientation::from_model(m)@ == m,
{
}

/// Turning right then left, or left then right, gives back the orientation.
pub proof fn law_rotations_cancel(o: VideoOrientation)
    ensures
        o.rotate_right().rotate_left() == o,
        o.rotate_left().rotate_right() == o,
{
    assert(model_rotate_left(model_rotate_right(o@)) == o@);
    assert(model_rotate_right(model_rotate_left(o@)) == o@);
}

/// Four quarter turns in either direction give back the orientation.
pub proof fn law_four_rotations_identity(o: VideoOrientation)
    ensures
        o.rotate_right().rotate_right().rotate_right().rotate_right() == o,
        o.rotate_left().rotate_left().rotate_left().rotate_left() == o,
{
}

/// Each flip undoes itself.
pub proof fn law_flips_are_involutions(o: VideoOrientation)
    ensures
        o.horizontal_flip().horizontal_flip() == o,
        o.vertical_flip().vertical_flip() == o,
{
}

/// A horizontal flip followed by a vertical flip is a half turn, in either order.
pub proof fn law_two_flips_make_half_turn(o: VideoOrientation)
    ensures
        o.horizontal_flip().vertical_flip() == o.rotate_right().rotate_right(),
        o.vertical_flip().horizontal_flip() == o.rotate_right().rotate_right(),
{
}

/// After any operation the frame has width and height traded exactly when it
/// had them traded before, toggled by whether the operation trades them.
pub proof fn law_transform_swaps(o: VideoOrientation, t: VideoOrientationTransformation)
    ensures
        o.transform(t).is_width_height_swapped() == (o.is_width_height_swapped()
            != t.does_swap_width_height()),
{
}

} // verus!

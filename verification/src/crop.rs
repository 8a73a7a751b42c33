//! The crop box: how its proportions follow the frame when the frame is
//! turned or mirrored, which edge or corner a pointer grabs, which cursor is
//! shown for it, and which edge an arrow key moves on a corner handle.
//!
//! Proportions are `(top, right, bottom, left)`: the share of the frame cut
//! away on each side. The arithmetic on them is done by the widget; here
//! only their places matter, so the functions are generic in the value type.
use vstd::prelude::*;

verus! {

/// Cut-away shares of the frame, `(top, right, bottom, left)`.
pub type Proportions<T> = (T, T, T, T);

/// The proportions after the frame turns a quarter clockwise: the left side
/// becomes the top.
#[verifier::allow_in_spec]
pub fn rotate_right_proportions<T: Copy>(p: Proportions<T>) -> Proportions<T>
    returns
        (p.3, p.0, p.1, p.2),
{
    (p.3, p.0, p.1, p.2)
}

/// The proportions after the frame turns a quarter counter-clockwise: the
/// right side becomes the top.
#[verifier::allow_in_spec]
pub fn rotate_left_proportions<T: Copy>(p: Proportions<T>) -> Proportions<T>
    returns
        (p.1, p.2, p.3, p.0),
{
    (p.1, p.2, p.3, p.0)
}

/// The proportions after a left-to-right mirror: the right share takes the
/// left share's value, and so does the left share (the right share is not
/// carried over).
#[verifier::allow_in_spec]
pub fn horizontal_flip_proportions<T: Copy>(p: Proportions<T>) -> Proportions<T>
    returns
        (p.0, p.3, p.2, p.3),
{
    (p.0, p.3, p.2, p.3)
}

/// The proportions after a top-to-bottom mirror: top and bottom trade.
#[verifier::allow_in_spec]
pub fn vertical_flip_proportions<T: Copy>(p: Proportions<T>) -> Proportions<T>
    returns
        (p.2, p.1, p.0, p.3),
{
    (p.2, p.1, p.0, p.3)
}

/// Turning right then left, or left then right, gives back the proportions.
pub proof fn law_proportion_rotations_cancel<T: Copy>(p: Proportions<T>)
    ensures
        rotate_left_proportions(rotate_right_proportions(p)) == p,
        rotate_right_proportions(rotate_left_proportions(p)) == p,
{
}

/// Four quarter turns give back the proportions.
pub proof fn law_proportion_four_rotations<T: Copy>(p: Proportions<T>)
    ensures
        rotate_right_proportions(
            rotate_right_proportions(rotate_right_proportions(rotate_right_proportions(p))),
        ) == p,
{
}

/// The top-to-bottom mirror undoes itself.
pub proof fn law_vertical_flip_proportions_involution<T: Copy>(p: Proportions<T>)
    ensures
        vertical_flip_proportions(vertical_flip_proportions(p)) == p,
{
}

/// The left-to-right mirror undoes itself when the left and right shares are
/// equal, and mirroring twice is always the same as mirroring once.
pub proof fn law_horizontal_flip_proportions<T: Copy>(p: Proportions<T>)
    ensures
        horizontal_flip_proportions(horizontal_flip_proportions(p))
            == horizontal_flip_proportions(p),
        p.1 == p.3 ==> horizontal_flip_proportions(horizontal_flip_proportions(p)) == p,
{
}

/// The proportions after both mirrors are those after a half turn when the
/// left and right shares are equal (with different shares the left-to-right
/// mirror loses the right share, and the two differ).
pub proof fn law_two_flips_proportions_half_turn<T: Copy>(p: Proportions<T>)
    requires
        p.1 == p.3,
    ensures
        vertical_flip_proportions(horizontal_flip_proportions(p)) == rotate_right_proportions(
            rotate_right_proportions(p),
        ),
        horizontal_flip_proportions(vertical_flip_proportions(p)) == rotate_right_proportions(
            rotate_right_proportions(p),
        ),
{
}

/// What a pointer press on the crop box grabs.
#[derive(Debug, Clone, Copy, PartialEq, Eq, Structural)]
pub enum DragType {
    Top,
    Right,
    Bottom,
    Left,
    TopRight,
    BottomRight,
    BottomLeft,
    TopLeft,
    All,
}

/// The pointer shape shown over the crop box.
#[derive(Debug, Clone, Copy, PartialEq, Eq, Structural)]
pub enum CursorType {
    Normal,
    Top,
    Bottom,
    Left,
    Right,
    TopRight,
    BottomRight,
    BottomLeft,
    TopLeft,
    All,
}

/// The side with index `i` in the order top, right, bottom, left.
pub open spec fn side_spec(i: int) -> DragType {
    if i == 0 {
        DragType::Top
    } else if i == 1 {
        DragType::Right
    } else if i == 2 {
        DragType::Bottom
    } else {
        DragType::Left
    }
}

/// Two grabbed sides that meet make the corner between them; otherwise the
/// nearer side counts.
pub open spec fn combine_sides_spec(first: DragType, second: DragType) -> DragType {
    match (first, second) {
        (DragType::Top, DragType::Left) | (DragType::Left, DragType::Top) => DragType::TopLeft,
        (DragType::Top, DragType::Right) | (DragType::Right, DragType::Top) => DragType::TopRight,
        (DragType::Bottom, DragType::Left) | (DragType::Left, DragType::Bottom) => {
            DragType::BottomLeft
        },
        (DragType::Bottom, DragType::Right) | (DragType::Right, DragType::Bottom) => {
            DragType::BottomRight
        },
        (x, _) => x,
    }
}

/// What a press grabs, from the two sides nearest to the pointer. `nearest`
/// and `second` index the sides (top, right, bottom, left) by distance;
/// `nearest_beyond` and `second_beyond` say whether each is farther than the
/// grab tolerance, `nearest_within` whether the nearest is strictly closer
/// than it, and `inside` whether the pointer is inside the box.
pub open spec fn drag_type_spec(
    nearest: int,
    second: int,
    nearest_beyond: bool,
    nearest_within: bool,
    second_beyond: bool,
    inside: bool,
) -> Option<DragType> {
    if nearest_beyond {
        if inside {
            Some(DragType::All)
        } else {
            None
        }
    } else if second_beyond {
        if nearest_within {
            Some(side_spec(nearest))
        } else {
            None
        }
    } else {
        Some(combine_sides_spec(side_spec(nearest), side_spec(second)))
    }
}

/// The side with index `i` in the order top, right, bottom, left.
fn side(i: usize) -> (r: DragType)
    requires
        i < 4,
    ensures
        r == side_spec(i as int),
{
    if i == 0 {
        DragType::Top
    } else if i == 1 {
        DragType::Right
    } else if i == 2 {
        DragType::Bottom
    } else {
        DragType::Left
    }
}

/// Decides what a press grabs from the two sides nearest to the pointer
/// (see `drag_type_spec` for the meaning of the arguments).
pub fn drag_type_from_nearest_sides(
    nearest: usize,
    second: usize,
    nearest_beyond: bool,
    nearest_within: bool,
    second_beyond: bool,
    inside: bool,
) -> (r: Option<DragType>)
    requires
        nearest < 4,
        second < 4,
    ensures
        r == drag_type_spec(
            nearest as int,
            second as int,
            nearest_beyond,
            nearest_within,
            second_beyond,
            inside,
        ),
{
    if nearest_beyond {
        if inside {
            return Some(DragType::All);
        } else {
            return None;
        }
    }
    if second_beyond {
        if nearest_within {
            return Some(side(nearest));
        }
        return None;
    }
    let first = side(nearest);
    let other = side(second);
    let combined = match (first, other) {
        (DragType::Top, DragType::Left) | (DragType::Left, DragType::Top) => DragType::TopLeft,
        (DragType::Top, DragType::Right) | (DragType::Right, DragType::Top) => DragType::TopRight,
        (DragType::Bottom, DragType::Left) | (DragType::Left, DragType::Bottom) => {
            DragType::BottomLeft
        },
        (DragType::Bottom, DragType::Right) | (DragType::Right, DragType::Bottom) => {
            DragType::BottomRight
        },
        (x, _) => x,
    };
    Some(combined)
}

/// The sides of the crop box, numbered top 0, right 1, bottom 2, left 3,
/// that a grab moves: one side, the two sides meeting at a corner, or all four.
pub open spec fn grabbed_sides(d: DragType) -> Set<int> {
    match d {
        DragType::Top => set![0int],
        DragType::Right => set![1int],
        DragType::Bottom => set![2int],
        DragType::Left => set![3int],
        DragType::TopRight => set![0int, 1int],
        DragType::BottomRight => set![2int, 1int],
        DragType::BottomLeft => set![2int, 3int],
        DragType::TopLeft => set![0int, 3int],
        DragType::All => set![0int, 1int, 2int, 3int],
    }
}

/// Two sides meet at a corner when they are neighbours: one horizontal, one vertical.
pub open spec fn adjacent_sides(a: int, b: int) -> bool {
    0 <= a < 4 && 0 <= b < 4 && (a + b) % 2 == 1
}

/// With both nearest sides within the grab tolerance, a press grabs the
/// corner where they meet when they are neighbours, whichever of the two is
/// nearer; otherwise (the same or opposite sides) it grabs the nearest side.
pub proof fn law_press_near_two_sides(nearest: int, second: int, within: bool, inside: bool)
    requires
        0 <= nearest < 4,
        0 <= second < 4,
    ensures
        adjacent_sides(nearest, second) ==> (drag_type_spec(
            nearest,
            second,
            false,
            within,
            false,
            inside,
        ) matches Some(d) && grabbed_sides(d) =~= set![nearest, second]),
        adjacent_sides(nearest, second) ==> drag_type_spec(
            nearest,
            second,
            false,
            within,
            false,
            inside,
        ) == drag_type_spec(second, nearest, false, within, false, inside),
        !adjacent_sides(nearest, second) ==> (drag_type_spec(
            nearest,
            second,
            false,
            within,
            false,
            inside,
        ) matches Some(d) && grabbed_sides(d) =~= set![nearest]),
{
    assert(set![2int, 1int] =~= set![1int, 2int]);
    assert(set![0int, 1int] =~= set![1int, 0int]);
    assert(set![2int, 3int] =~= set![3int, 2int]);
    assert(set![0int, 3int] =~= set![3int, 0int]);
}

/// With only the nearest side within the tolerance, a press strictly within
/// it grabs that side alone; with no side within it, a press inside the box
/// grabs all four sides (moving the box) and a press outside grabs nothing.
pub proof fn law_press_near_one_side_or_none(
    nearest: int,
    second: int,
    within: bool,
    inside: bool,
)
    requires
        0 <= nearest < 4,
        0 <= second < 4,
    ensures
        within ==> (drag_type_spec(nearest, second, false, within, true, inside) matches Some(d)
            && grabbed_sides(d) =~= set![nearest]),
        !within ==> drag_type_spec(nearest, second, false, within, true, inside) is None,
        inside ==> (drag_type_spec(nearest, second, true, within, true, inside) matches Some(d)
            && grabbed_sides(d) =~= set![0int, 1int, 2int, 3int]),
        !inside ==> drag_type_spec(nearest, second, true, within, true, inside) is None,
{
}

/// The cursor shown for what the pointer would grab.
pub open spec fn cursor_for_drag_spec(drag: Option<DragType>) -> CursorType {
    match drag {
        Some(DragType::Top) => CursorType::Top,
        Some(DragType::Left) => CursorType::Left,
        Some(DragType::Bottom) => CursorType::Bottom,
        Some(DragType::Right) => CursorType::Right,
        Some(DragType::TopLeft) => CursorType::TopLeft,
        Some(DragType::BottomLeft) => CursorType::BottomLeft,
        Some(DragType::BottomRight) => CursorType::BottomRight,
        Some(DragType::TopRight) => CursorType::TopRight,
        Some(DragType::All) => CursorType::All,
        None => CursorType::Normal,
    }
}

/// The cursor shown for what the pointer would grab.
pub fn cursor_for_drag(drag: Option<DragType>) -> (r: CursorType)
    ensures
        r == cursor_for_drag_spec(drag),
{
    match drag {
        Some(DragType::Top) => CursorType::Top,
        Some(DragType::Left) => CursorType::Left,
        Some(DragType::Bottom) => CursorType::Bottom,
        Some(DragType::Right) => CursorType::Right,
        Some(DragType::TopLeft) => CursorType::TopLeft,
        Some(DragType::BottomLeft) => CursorType::BottomLeft,
        Some(DragType::BottomRight) => CursorType::BottomRight,
        Some(DragType::TopRight) => CursorType::TopRight,
        Some(DragType::All) => CursorType::All,
        None => CursorType::Normal,
    }
}

/// The toolkit's name of each cursor shape.
pub open spec fn cursor_name_spec(c: CursorType) -> Seq<char> {
    match c {
        CursorType::Normal => "default"@,
        CursorType::Top => "n-resize"@,
        CursorType::Bottom => "s-resize"@,
        CursorType::Left => "w-resize"@,
        CursorType::Right => "e-resize"@,
        CursorType::TopRight => "ne-resize"@,
        CursorType::BottomLeft => "sw-resize"@,
        CursorType::TopLeft => "nw-resize"@,
        CursorType::BottomRight => "se-resize"@,
        CursorType::All => "move"@,
    }
}

impl CursorType {
    /// The toolkit's name of this cursor shape.
    pub fn gtk_cursor_name(self) -> (r: &'static str)
        ensures
            r@ == cursor_name_spec(self),
    {
        match self {
            CursorType::Normal => "default",
            CursorType::Top => "n-resize",
            CursorType::Bottom => "s-resize",
            CursorType::Left => "w-resize",
            CursorType::Right => "e-resize",
            CursorType::TopRight => "ne-resize",
            CursorType::BottomLeft => "sw-resize",
            CursorType::TopLeft => "nw-resize",
            CursorType::BottomRight => "se-resize",
            CursorType::All => "move",
        }
    }
}

/// A corner handle of the crop box.
#[derive(Debug, Clone, Copy, PartialEq, Eq, Structural)]
pub enum CropHandle {
    TopLeft,
    TopRight,
    BottomLeft,
    BottomRight,
}

/// An arrow key.
#[derive(Debug, Clone, Copy, PartialEq, Eq, Structural)]
pub enum ArrowKey {
    Up,
    Down,
    Left,
    Right,
}

/// A one-step keyboard move of one edge of the crop box.
#[derive(Debug, Clone, Copy, PartialEq, Eq, Structural)]
pub enum EdgeMove {
    TopDown,
    TopUp,
    BottomDown,
    BottomUp,
    LeftLeft,
    LeftRight,
    RightLeft,
    RightRight,
}

/// An arrow key on a corner handle moves the corner's horizontal edge for up
/// and down, and its vertical edge for left and right, in the key's direction.
pub open spec fn key_move_spec(handle: CropHandle, key: ArrowKey) -> EdgeMove {
    let top = handle == CropHandle::TopLeft || handle == CropHandle::TopRight;
    let left = handle == CropHandle::TopLeft || handle == CropHandle::BottomLeft;
    match key {
        ArrowKey::Down => if top {
            EdgeMove::TopDown
        } else {
            EdgeMove::BottomDown
        },
        ArrowKey::Up => if top {
            EdgeMove::TopUp
        } else {
            EdgeMove::BottomUp
        },
        ArrowKey::Left => if left {
            EdgeMove::LeftLeft
        } else {
            EdgeMove::RightLeft
        },
        ArrowKey::Right => if left {
            EdgeMove::LeftRight
        } else {
            EdgeMove::RightRight
        },
    }
}

/// The side (top 0, right 1, bottom 2, left 3) that an edge move moves.
pub open spec fn moved_side(m: EdgeMove) -> int {
    match m {
        EdgeMove::TopDown | EdgeMove::TopUp => 0,
        EdgeMove::RightLeft | EdgeMove::RightRight => 1,
        EdgeMove::BottomDown | EdgeMove::BottomUp => 2,
        EdgeMove::LeftLeft | EdgeMove::LeftRight => 3,
    }
}

/// The direction in which an edge move moves its side.
pub open spec fn moved_direction(m: EdgeMove) -> ArrowKey {
    match m {
        EdgeMove::TopDown | EdgeMove::BottomDown => ArrowKey::Down,
        EdgeMove::TopUp | EdgeMove::BottomUp => ArrowKey::Up,
        EdgeMove::LeftLeft | EdgeMove::RightLeft => ArrowKey::Left,
        EdgeMove::LeftRight | EdgeMove::RightRight => ArrowKey::Right,
    }
}

/// The corner at which a handle sits.
pub open spec fn handle_corner(h: CropHandle) -> DragType {
    match h {
        CropHandle::TopLeft => DragType::TopLeft,
        CropHandle::TopRight => DragType::TopRight,
        CropHandle::BottomLeft => DragType::BottomLeft,
        CropHandle::BottomRight => DragType::BottomRight,
    }
}

/// An arrow key on a handle moves one of the two sides meeting at the
/// handle's corner, in the key's direction: the horizontal side (top or
/// bottom) for up and down, the vertical side (left or right) for left and right.
pub proof fn law_key_moves_own_side(handle: CropHandle, key: ArrowKey)
    ensures
        moved_direction(key_move_spec(handle, key)) == key,
        grabbed_sides(handle_corner(handle)).contains(moved_side(key_move_spec(handle, key))),
        (moved_side(key_move_spec(handle, key)) % 2 == 0) == (key == ArrowKey::Up || key
            == ArrowKey::Down),
{
}

/// The edge move that an arrow key makes on a corner handle.
pub fn key_move(handle: CropHandle, key: ArrowKey) -> (r: EdgeMove)
    ensures
        r == key_move_spec(handle, key),
{
    match (handle, key) {
        (CropHandle::TopLeft, ArrowKey::Down) => EdgeMove::TopDown,
        (CropHandle::TopLeft, ArrowKey::Up) => EdgeMove::TopUp,
        (CropHandle::TopLeft, ArrowKey::Left) => EdgeMove::LeftLeft,
        (CropHandle::TopLeft, ArrowKey::Right) => EdgeMove::LeftRight,
        (CropHandle::BottomLeft, ArrowKey::Down) => EdgeMove::BottomDown,
        (CropHandle::BottomLeft, ArrowKey::Up) => EdgeMove::BottomUp,
        (CropHandle::BottomLeft, ArrowKey::Left) => EdgeMove::LeftLeft,
        (CropHandle::BottomLeft, ArrowKey::Right) => EdgeMove::LeftRight,
        (CropHandle::TopRight, ArrowKey::Down) => EdgeMove::TopDown,
        (CropHandle::TopRight, ArrowKey::Up) => EdgeMove::TopUp,
        (CropHandle::TopRight, ArrowKey::Left) => EdgeMove::RightLeft,
        (CropHandle::TopRight, ArrowKey::Right) => EdgeMove::RightRight,
        (CropHandle::BottomRight, ArrowKey::Down) => EdgeMove::BottomDown,
        (CropHandle::BottomRight, ArrowKey::Up) => EdgeMove::BottomUp,
        (CropHandle::BottomRight, ArrowKey::Left) => EdgeMove::RightLeft,
        (CropHandle::BottomRight, ArrowKey::Right) => EdgeMove::RightRight,
    }
}

} // verus!

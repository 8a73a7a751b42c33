//! The trimming timeline: the playback position, the video's duration and the
//! kept range, all in milliseconds, and how pointer drags and arrow keys move
//! them. Converting pointer coordinates into times is the widget's part.
use vstd::prelude::*;

use crate::crop::ArrowKey;

verus! {

/// How far one arrow key press moves a range end, in milliseconds.
pub const TIMELINE_KEYBOARD_MOVE: i64 = 250;

/// What a pointer drag on the timeline moves.
#[derive(Debug, Clone, Copy, PartialEq, Eq, Structural)]
pub enum TimelineDrag {
    Playback,
    Start,
    End,
}

/// The pointer shape shown over the timeline.
#[derive(Debug, Clone, Copy, PartialEq, Eq, Structural)]
pub enum TimelineCursor {
    Normal,
    StartEnd,
}

impl TimelineCursor {
    /// The toolkit's name of this cursor shape.
    pub fn gtk_cursor_name(self) -> (r: &'static str)
        ensures
            self == TimelineCursor::Normal ==> r@ == "default"@,
            self == TimelineCursor::StartEnd ==> r@ == "col-resize"@,
    {
        match self {
            TimelineCursor::Normal => "default",
            TimelineCursor::StartEnd => "col-resize",
        }
    }
}

/// The cursor over the timeline: the resizing one near either end of the range.
pub fn timeline_cursor(has_range: bool, near_start: bool, near_end: bool) -> (r: TimelineCursor)
    ensures
        r == (if has_range && (near_end || near_start) {
            TimelineCursor::StartEnd
        } else {
            TimelineCursor::Normal
        }),
{
    if has_range && (near_end || near_start) {
        TimelineCursor::StartEnd
    } else {
        TimelineCursor::Normal
    }
}

/// A range-end handle of the timeline.
#[derive(Debug, Clone, Copy, PartialEq, Eq, Structural)]
pub enum TimelineHandle {
    Start,
    End,
}

/// A one-step keyboard move of a range end.
#[derive(Debug, Clone, Copy, PartialEq, Eq, Structural)]
pub enum TimelineMove {
    StartBack,
    StartForward,
    EndBack,
    EndForward,
}

/// The left and right arrows move the handle's range end one step earlier or
/// later; the up and down arrows do nothing on the timeline.
pub open spec fn timeline_key_move_spec(handle: TimelineHandle, key: ArrowKey) -> Option<
    TimelineMove,
> {
    match (handle, key) {
        (TimelineHandle::Start, ArrowKey::Left) => Some(TimelineMove::StartBack),
        (TimelineHandle::Start, ArrowKey::Right) => Some(TimelineMove::StartForward),
        (TimelineHandle::End, ArrowKey::Left) => Some(TimelineMove::EndBack),
        (TimelineHandle::End, ArrowKey::Right) => Some(TimelineMove::EndForward),
        _ => None,
    }
}

/// The range-end move that an arrow key makes on a handle, if any.
pub fn timeline_key_move(handle: TimelineHandle, key: ArrowKey) -> (r: Option<TimelineMove>)
    ensures
        r == timeline_key_move_spec(handle, key),
{
    match (handle, key) {
        (TimelineHandle::Start, ArrowKey::Left) => Some(TimelineMove::StartBack),
        (TimelineHandle::Start, ArrowKey::Right) => Some(TimelineMove::StartForward),
        (TimelineHandle::End, ArrowKey::Left) => Some(TimelineMove::EndBack),
        (TimelineHandle::End, ArrowKey::Right) => Some(TimelineMove::EndForward),
        _ => None,
    }
}

/// The state behind the timeline widget.
#[derive(Debug, Clone, Copy)]
pub struct TimelineState {
    pub position: u64,
    pub duration: u64,
    pub range: Option<(u64, u64)>,
    pub drag_type: Option<TimelineDrag>,
}

/// `x` limited to `[lo, hi]`.
pub open spec fn clamp_spec(x: u64, lo: u64, hi: u64) -> u64 {
    if x < lo {
        lo
    } else if x > hi {
        hi
    } else {
        x
    }
}

/// A range whose start is not after its end.
pub open spec fn ordered(range: Option<(u64, u64)>) -> bool {
    range matches Some(r) && r.0 <= r.1
}

/// The start after one step forward: a step later, but not past the end.
pub open spec fn start_forward_spec(start: u64, end: u64) -> u64 {
    if start + TIMELINE_KEYBOARD_MOVE <= end {
        (start + TIMELINE_KEYBOARD_MOVE) as u64
    } else {
        end
    }
}

/// The end after one step forward: a step later, but not past the duration.
pub open spec fn end_forward_spec(end: u64, duration: u64) -> u64 {
    if end + TIMELINE_KEYBOARD_MOVE <= duration {
        (end + TIMELINE_KEYBOARD_MOVE) as u64
    } else {
        duration
    }
}

/// The start after one step back: a step earlier, but not before zero, the
/// arithmetic done on the signed reading of the stored value.
pub open spec fn start_back_spec(start: u64) -> u64 {
    let v = (start as i64) - TIMELINE_KEYBOARD_MOVE;
    (if v > 0 {
        v
    } else {
        0
    }) as u64
}

/// The end after one step back: a step earlier, but not before the start,
/// the arithmetic done on the signed readings of the stored values.
pub open spec fn end_back_spec(start: u64, end: u64) -> u64 {
    let v = (end as i64) - TIMELINE_KEYBOARD_MOVE;
    (if v > (start as i64) as int {
        v
    } else {
        (start as i64) as int
    }) as u64
}

/// The range after a drag to `time`, and what the drag moves afterwards: a
/// dragged end that passes the other end trades roles with it.
pub open spec fn drag_range_spec(range: (u64, u64), drag: TimelineDrag, time: u64) -> Option<
    ((u64, u64), TimelineDrag),
> {
    let (start, end) = range;
    match drag {
        TimelineDrag::Start => if time <= end {
            Some(((time, end), TimelineDrag::Start))
        } else {
            Some(((end, time), TimelineDrag::End))
        },
        TimelineDrag::End => if time >= start {
            Some(((start, time), TimelineDrag::End))
        } else {
            Some(((time, start), TimelineDrag::Start))
        },
        TimelineDrag::Playback => None,
    }
}

impl TimelineState {
    /// A timeline with nothing loaded: zero duration and an empty range at zero.
    pub fn new() -> (r: TimelineState)
        ensures
            r.position == 0,
            r.duration == 0,
            r.range == Some((0u64, 0u64)),
            r.drag_type is None,
    {
        TimelineState { position: 0, duration: 0, range: Some((0, 0)), drag_type: None }
    }

    /// Replaces the kept range.
    pub fn set_range(&mut self, range: Option<(u64, u64)>)
        ensures
            *final(self) == (TimelineState { range, ..*old(self) }),
    {
        self.range = range;
    }

    /// Replaces the duration.
    pub fn set_duration(&mut self, duration: u64)
        ensures
            *final(self) == (TimelineState { duration, ..*old(self) }),
    {
        self.duration = duration;
    }

    /// Which parts are shown: the position marker once there is a duration,
    /// and the range selection once there is a duration and a range.
    pub fn visibility(&self) -> (r: (bool, bool))
        ensures
            r == (if self.duration == 0 {
                (false, false)
            } else {
                (true, self.range is Some)
            }),
    {
        if self.duration == 0 {
            (false, false)
        } else {
            (true, self.range.is_some())
        }
    }

    /// Moves the playback position to `position`, kept inside the range.
    pub fn set_position(&mut self, position: u64)
        requires
            ordered(old(self).range),
        ensures
            *final(self) == (TimelineState {
                position: clamp_spec(position, old(self).range.unwrap().0, old(self).range.unwrap().1),
                ..*old(self)
            }),
            old(self).range.unwrap().0 <= final(self).position <= old(self).range.unwrap().1,
    {
        let (start, end) = match self.range {
            Some(r) => r,
            None => (0, 0),
        };
        let p = if position < start {
            start
        } else if position > end {
            end
        } else {
            position
        };
        self.position = p;
    }

    /// A press at the timeline starts a drag of the playback position, or of
    /// a range end when the press is near it (the far end taking precedence).
    pub fn start_drag(&mut self, near_start: bool, near_end: bool)
        ensures
            *final(self) == (TimelineState {
                drag_type: Some(
                    if old(self).range is Some && near_end {
                        TimelineDrag::End
                    } else if old(self).range is Some && near_start {
                        TimelineDrag::Start
                    } else {
                        TimelineDrag::Playback
                    },
                ),
                ..*old(self)
            }),
    {
        let mut drag = TimelineDrag::Playback;
        if self.range.is_some() {
            if near_end {
                drag = TimelineDrag::End;
            } else if near_start {
                drag = TimelineDrag::Start;
            }
        }
        self.drag_type = Some(drag);
    }

    /// The drag has reached `time`: the position follows it, and a dragged
    /// range end moves to it, trading roles with the other end if it passes it.
    pub fn drag_to(&mut self, time: u64)
        requires
            ordered(old(self).range),
            old(self).drag_type is Some,
        ensures
            final(self).position == clamp_spec(time, old(self).range.unwrap().0, old(self).range.unwrap().1),
            final(self).duration == old(self).duration,
            match drag_range_spec(old(self).range.unwrap(), old(self).drag_type.unwrap(), time) {
                Some((range, drag)) => final(self).range == Some(range) && final(self).drag_type
                    == Some(drag),
                None => final(self).range == old(self).range && final(self).drag_type
                    == old(self).drag_type,
            },
            ordered(final(self).range),
    {
        self.set_position(time);
        let (start, end) = match self.range {
            Some(r) => r,
            None => (0, 0),
        };
        let drag = match self.drag_type {
            Some(d) => d,
            None => TimelineDrag::Playback,
        };
        let (start, end) = match drag {
            TimelineDrag::Start => {
                if time <= end {
                    (time, end)
                } else {
                    self.drag_type = Some(TimelineDrag::End);
                    (end, time)
                }
            },
            TimelineDrag::End => {
                if time >= start {
                    (start, time)
                } else {
                    self.drag_type = Some(TimelineDrag::Start);
                    (time, start)
                }
            },
            TimelineDrag::Playback => {
                return ;
            },
        };
        self.range = Some((start, end));
    }

    /// The right arrow on the start handle: the start moves a step later, but
    /// not past the end, and the position goes to it.
    pub fn bring_start_forward(&mut self)
        requires
            old(self).range is Some,
            old(self).range.unwrap().0 + TIMELINE_KEYBOARD_MOVE <= u64::MAX,
        ensures
            ({
                let (start, end) = old(self).range.unwrap();
                let s = start_forward_spec(start, end);
                *final(self) == (TimelineState {
                    range: Some((s, end)),
                    position: s,
                    ..*old(self)
                })
            }),
            ordered(final(self).range),
    {
        let (start, end) = match self.range {
            Some(r) => r,
            None => (0, 0),
        };
        let moved = start + (TIMELINE_KEYBOARD_MOVE as u64);
        let s = if moved <= end {
            moved
        } else {
            end
        };
        self.range = Some((s, end));
        self.set_position(s);
    }

    /// The left arrow on the start handle: the start moves a step earlier,
    /// but not before zero, and the position goes to it.
    pub fn bring_start_back(&mut self)
        requires
            old(self).range is Some,
            (old(self).range.unwrap().0 as i64) - TIMELINE_KEYBOARD_MOVE >= i64::MIN,
            start_back_spec(old(self).range.unwrap().0) <= old(self).range.unwrap().1,
        ensures
            ({
                let (start, end) = old(self).range.unwrap();
                let s = start_back_spec(start);
                *final(self) == (TimelineState {
                    range: Some((s, end)),
                    position: s,
                    ..*old(self)
                })
            }),
            old(self).range.unwrap().0 <= i64::MAX ==> final(self).range.unwrap().0 == (if old(self).range.unwrap().0
                >= TIMELINE_KEYBOARD_MOVE {
                old(self).range.unwrap().0 - TIMELINE_KEYBOARD_MOVE
            } else {
                0
            }),
            ordered(final(self).range),
    {
        let (start, end) = match self.range {
            Some(r) => r,
            None => (0, 0),
        };
        let v = (start as i64) - TIMELINE_KEYBOARD_MOVE;
        let s = (if v > 0 {
            v
        } else {
            0
        }) as u64;
        self.range = Some((s, end));
        self.set_position(s);
    }

    /// The right arrow on the end handle: the end moves a step later, but not
    /// past the duration, and the position goes to it.
    pub fn bring_end_forward(&mut self)
        requires
            old(self).range is Some,
            old(self).range.unwrap().1 + TIMELINE_KEYBOARD_MOVE <= u64::MAX,
            old(self).range.unwrap().0 <= old(self).range.unwrap().1 + TIMELINE_KEYBOARD_MOVE,
            old(self).range.unwrap().0 <= old(self).duration,
        ensures
            ({
                let (start, end) = old(self).range.unwrap();
                let e = end_forward_spec(end, old(self).duration);
                *final(self) == (TimelineState {
                    range: Some((start, e)),
                    position: e,
                    ..*old(self)
                })
            }),
            ordered(final(self).range),
    {
        let (start, end) = match self.range {
            Some(r) => r,
            None => (0, 0),
        };
        let moved = end + (TIMELINE_KEYBOARD_MOVE as u64);
        let e = if moved <= self.duration {
            moved
        } else {
            self.duration
        };
        self.range = Some((start, e));
        self.set_position(e);
    }

    /// The left arrow on the end handle: the end moves a step earlier, but
    /// not before the start, and the position goes to it.
    pub fn bring_end_back(&mut self)
        requires
            old(self).range is Some,
            (old(self).range.unwrap().1 as i64) - TIMELINE_KEYBOARD_MOVE >= i64::MIN,
            old(self).range.unwrap().0 <= end_back_spec(old(self).range.unwrap().0, old(self).range.unwrap().1),
        ensures
            ({
                let (start, end) = old(self).range.unwrap();
                let e = end_back_spec(start, end);
                *final(self) == (TimelineState {
                    range: Some((start, e)),
                    position: e,
                    ..*old(self)
                })
            }),
            old(self).range.unwrap().0 <= i64::MAX && old(self).range.unwrap().1 <= i64::MAX ==> final(self).range.unwrap().1 == (if old(self).range.unwrap().1 >= old(self).range.unwrap().0
                + TIMELINE_KEYBOARD_MOVE {
                old(self).range.unwrap().1 - TIMELINE_KEYBOARD_MOVE
            } else {
                old(self).range.unwrap().0 as int
            }),
            ordered(final(self).range),
    {
        let (start, end) = match self.range {
            Some(r) => r,
            None => (0, 0),
        };
        let v = (end as i64) - TIMELINE_KEYBOARD_MOVE;
        let s = start as i64;
        let e = (if v > s {
            v
        } else {
            s
        }) as u64;
        self.range = Some((start, e));
        self.set_position(e);
    }
}

/// A step forward and a step back on the start handle give back the start,
/// when the step fits before the end.
pub proof fn law_start_steps_cancel(start: u64, end: u64)
    requires
        start + TIMELINE_KEYBOARD_MOVE <= end,
        end <= i64::MAX,
    ensures
        start_back_spec(start_forward_spec(start, end)) == start,
{
}

/// A step back and a step forward on the end handle give back the end, when
/// the step fits after the start.
pub proof fn law_end_steps_cancel(start: u64, end: u64, duration: u64)
    requires
        start + TIMELINE_KEYBOARD_MOVE <= end,
        end <= duration,
        end <= i64::MAX,
    ensures
        end_forward_spec(end_back_spec(start, end), duration) == end,
{
}

/// Arrow keys never carry a range end past the other end, or the end past
/// the duration: a range within the duration stays ordered and within it.
pub proof fn law_steps_keep_range(start: u64, end: u64, duration: u64)
    requires
        start <= end <= duration <= i64::MAX,
    ensures
        start_forward_spec(start, end) <= end,
        start_back_spec(start) <= end,
        start <= end_forward_spec(end, duration) <= duration,
        start <= end_back_spec(start, end) <= end,
{
}

/// Dragging a range end puts that end at the drag time and leaves the other
/// end where it was; the end that now holds the drag time is what is dragged
/// on, so the two ends trade roles exactly when the drag passes the other end.
/// Dragging the playback position leaves the range alone.
pub proof fn law_drag_moves_dragged_end(range: (u64, u64), drag: TimelineDrag, time: u64)
    ensures
        drag == TimelineDrag::Playback <==> drag_range_spec(range, drag, time) is None,
        drag_range_spec(range, drag, time) matches Some((r, d)) ==> {
            &&& r.0 <= r.1
            &&& (d == TimelineDrag::End ==> r.1 == time)
            &&& (d == TimelineDrag::Start ==> r.0 == time)
            &&& d != TimelineDrag::Playback
            &&& (drag == TimelineDrag::End ==> (r.0 == range.0 || r.1 == range.0))
            &&& (drag == TimelineDrag::Start ==> (r.0 == range.1 || r.1 == range.1))
            &&& (d != drag <==> (if drag == TimelineDrag::End {
                time < range.0
            } else {
                time > range.1
            }))
        },
{
}

/// After any drag the kept range is ordered, and it stays within the
/// duration when the drag time and the old range do.
pub proof fn law_drag_keeps_range(range: (u64, u64), drag: TimelineDrag, time: u64, duration: u64)
    requires
        range.0 <= range.1 <= duration,
        time <= duration,
    ensures
        drag_range_spec(range, drag, time) matches Some((r, _)) ==> r.0 <= r.1 <= duration,
{
}

} // verus!

//! The state of the video preview: what exists while a video is loaded (its
//! frame dimensions as shown, its orientation, the kept range in
//! milliseconds, muting and whether playback ran to the end), and how the
//! preview's operations change it. The media pipeline that plays the video is
//! driven by the widget from what these operations return.
use vstd::prelude::*;

use crate::info::Dimensions;
use crate::orientation::{VideoOrientation, VideoOrientationTransformation};

verus! {

/// State that only exists while a video is loaded.
#[derive(Debug, Clone, Copy)]
pub struct LoadedVideo {
    pub original_dimensions: Dimensions<u32>,
    pub current_dimensions: Dimensions<u32>,
    pub orientation: VideoOrientation,
    pub inpoint: u64,
    pub outpoint: u64,
    pub mute: bool,
    pub ended: bool,
}

/// The frame dimensions as shown under an orientation.
pub open spec fn oriented(d: Dimensions<u32>, o: VideoOrientation) -> Dimensions<u32> {
    if o.is_width_height_swapped() {
        d.swap()
    } else {
        d
    }
}

impl LoadedVideo {
    /// The shown dimensions are the original ones turned by the orientation.
    pub open spec fn wf(&self) -> bool {
        self.current_dimensions == oriented(self.original_dimensions, self.orientation)
    }

    /// A freshly loaded video: upright, the whole of it kept, not ended.
    pub fn new(dimensions: Dimensions<u32>, duration: u64, mute: bool) -> (r: LoadedVideo)
        ensures
            r == (LoadedVideo {
                original_dimensions: dimensions,
                current_dimensions: dimensions,
                orientation: VideoOrientation::Identity,
                inpoint: 0,
                outpoint: duration,
                mute,
                ended: false,
            }),
            r.wf(),
    {
        LoadedVideo {
            original_dimensions: dimensions,
            current_dimensions: dimensions,
            orientation: VideoOrientation::Identity,
            inpoint: 0,
            outpoint: duration,
            mute,
            ended: false,
        }
    }

    /// The part of the video that is kept: where it starts and how long it is.
    pub fn render_window(&self) -> (r: (u64, u64))
        requires
            self.inpoint <= self.outpoint,
        ensures
            r == (self.inpoint, (self.outpoint - self.inpoint) as u64),
    {
        (self.inpoint, self.outpoint - self.inpoint)
    }
}

/// The preview: a loaded video or nothing.
#[derive(Debug, Clone, Copy)]
pub struct VideoPreviewState {
    pub loaded: Option<LoadedVideo>,
}

/// The state of the loaded video after an orientation operation.
pub open spec fn transformed_spec(v: LoadedVideo, t: VideoOrientationTransformation) -> LoadedVideo {
    LoadedVideo {
        orientation: v.orientation.transform(t),
        current_dimensions: if t.does_swap_width_height() {
            v.current_dimensions.swap()
        } else {
            v.current_dimensions
        },
        ..v
    }
}

/// The state of the loaded video after a seek to `position`: reaching the
/// end of the kept range marks playback as ended.
pub open spec fn seeked_spec(v: LoadedVideo, position: u64) -> LoadedVideo {
    LoadedVideo {
        ended: if position == v.outpoint {
            true
        } else {
            v.ended
        },
        ..v
    }
}

/// Where playback seeks before it starts: the start of the kept range when it had ended.
pub open spec fn play_seek_spec(v: LoadedVideo) -> Option<u64> {
    if v.ended {
        Some(v.inpoint)
    } else {
        None
    }
}

/// The state of the loaded video once playback starts.
pub open spec fn playing_spec(v: LoadedVideo) -> LoadedVideo {
    LoadedVideo { ended: false, ..v }
}

/// The state of the loaded video with a new kept range.
pub open spec fn ranged_spec(v: LoadedVideo, start: u64, end: u64) -> LoadedVideo {
    LoadedVideo { inpoint: start, outpoint: end, ..v }
}

/// The state of the loaded video with muting set.
pub open spec fn muted_spec(v: LoadedVideo, mute: bool) -> LoadedVideo {
    LoadedVideo { mute, ..v }
}

/// The state of the loaded video after the pipeline is built anew.
pub open spec fn rebuilt_spec(v: LoadedVideo) -> LoadedVideo {
    LoadedVideo {
        current_dimensions: oriented(v.original_dimensions, v.orientation),
        ended: false,
        ..v
    }
}

impl VideoPreviewState {
    /// Every loaded video is well formed.
    pub open spec fn wf(&self) -> bool {
        self.loaded matches Some(v) ==> v.wf()
    }

    /// A preview with nothing loaded.
    pub fn new() -> (r: VideoPreviewState)
        ensures
            r.loaded is None,
    {
        VideoPreviewState { loaded: None }
    }

    /// Where the kept range starts, zero when nothing is loaded.
    pub fn inpoint(&self) -> (r: u64)
        ensures
            r == (match self.loaded {
                Some(v) => v.inpoint,
                None => 0,
            }),
    {
        match &self.loaded {
            Some(v) => v.inpoint,
            None => 0,
        }
    }

    /// Where the kept range ends, zero when nothing is loaded.
    pub fn outpoint(&self) -> (r: u64)
        ensures
            r == (match self.loaded {
                Some(v) => v.outpoint,
                None => 0,
            }),
    {
        match &self.loaded {
            Some(v) => v.outpoint,
            None => 0,
        }
    }

    /// A video was opened and its pipeline built.
    pub fn load(&mut self, dimensions: Dimensions<u32>, duration: u64, mute: bool)
        ensures
            final(self).loaded == Some(
                LoadedVideo {
                    original_dimensions: dimensions,
                    current_dimensions: dimensions,
                    orientation: VideoOrientation::Identity,
                    inpoint: 0,
                    outpoint: duration,
                    mute,
                    ended: false,
                },
            ),
            final(self).wf(),
    {
        self.loaded = Some(LoadedVideo::new(dimensions, duration, mute));
    }

    /// The loaded video is dropped; says whether there was one, whose
    /// pipeline is then to be stopped.
    pub fn kill(&mut self) -> (r: bool)
        ensures
            r == old(self).loaded is Some,
            final(self).loaded is None,
    {
        let had = self.loaded.is_some();
        self.loaded = None;
        had
    }

    /// The pipeline is built anew, keeping orientation, range and muting;
    /// says whether a video is loaded.
    pub fn refresh(&mut self) -> (r: bool)
        ensures
            r == old(self).loaded is Some,
            final(self).loaded == (match old(self).loaded {
                Some(v) => Some(rebuilt_spec(v)),
                None => None,
            }),
            final(self).wf(),
    {
        match self.loaded {
            Some(v) => {
                let current = if v.orientation.is_width_height_swapped() {
                    v.original_dimensions.swap()
                } else {
                    v.original_dimensions
                };
                self.loaded = Some(LoadedVideo { current_dimensions: current, ended: false, ..v });
                true
            },
            None => false,
        }
    }

    /// Seeks without pausing: returns the position to seek the pipeline to,
    /// or `None` when nothing is loaded. Seeking to the end of the kept range
    /// marks playback as ended.
    pub fn quiet_seek(&mut self, position: u64) -> (r: Option<u64>)
        ensures
            r == (if old(self).loaded is Some {
                Some(position)
            } else {
                None
            }),
            final(self).loaded == (match old(self).loaded {
                Some(v) => Some(seeked_spec(v, position)),
                None => None,
            }),
            old(self).wf() ==> final(self).wf(),
    {
        match self.loaded {
            Some(v) => {
                let ended = if position == v.outpoint {
                    true
                } else {
                    v.ended
                };
                self.loaded = Some(LoadedVideo { ended, ..v });
                Some(position)
            },
            None => None,
        }
    }

    /// Playback reached the end of the stream: it is marked as ended.
    pub fn end_of_stream(&mut self)
        ensures
            final(self).loaded == (match old(self).loaded {
                Some(v) => Some(LoadedVideo { ended: true, ..v }),
                None => None,
            }),
            old(self).wf() ==> final(self).wf(),
    {
        if let Some(v) = self.loaded {
            self.loaded = Some(LoadedVideo { ended: true, ..v });
        }
    }

    /// Whether pausing applies, which it does when a video is loaded.
    pub fn pause(&self) -> (r: bool)
        ensures
            r == self.loaded is Some,
    {
        self.loaded.is_some()
    }

    /// Starts playback: `None` when nothing is loaded; otherwise where to seek
    /// first, which is the start of the kept range when playback had ended.
    pub fn play(&mut self) -> (r: Option<Option<u64>>)
        ensures
            r == (match old(self).loaded {
                Some(v) => Some(play_seek_spec(v)),
                None => None,
            }),
            final(self).loaded == (match old(self).loaded {
                Some(v) => Some(playing_spec(v)),
                None => None,
            }),
            old(self).wf() ==> final(self).wf(),
    {
        match self.loaded {
            Some(v) => {
                let seek = if v.ended {
                    Some(v.inpoint)
                } else {
                    None
                };
                self.loaded = Some(LoadedVideo { ended: false, ..v });
                Some(seek)
            },
            None => None,
        }
    }

    /// Replaces the kept range of a loaded video.
    pub fn set_range(&mut self, start: u64, end: u64)
        ensures
            final(self).loaded == (match old(self).loaded {
                Some(v) => Some(ranged_spec(v, start, end)),
                None => None,
            }),
            old(self).wf() ==> final(self).wf(),
    {
        if let Some(v) = self.loaded {
            self.loaded = Some(LoadedVideo { inpoint: start, outpoint: end, ..v });
        }
    }

    /// Applies an orientation operation to a loaded video, trading the shown
    /// width and height for a quarter turn; says whether a video is loaded.
    pub fn transform(&mut self, t: VideoOrientationTransformation) -> (r: bool)
        ensures
            r == old(self).loaded is Some,
            final(self).loaded == (match old(self).loaded {
                Some(v) => Some(transformed_spec(v, t)),
                None => None,
            }),
            old(self).wf() ==> final(self).wf(),
    {
        match self.loaded {
            Some(v) => {
                let orientation = v.orientation.transform(t);
                let current = if t.does_swap_width_height() {
                    v.current_dimensions.swap()
                } else {
                    v.current_dimensions
                };
                proof {
                    crate::orientation::law_transform_swaps(v.orientation, t);
                }
                self.loaded = Some(
                    LoadedVideo { orientation, current_dimensions: current, ..v },
                );
                true
            },
            None => false,
        }
    }

    /// Turns the loaded video a quarter clockwise.
    pub fn rotate_right(&mut self) -> (r: bool)
        ensures
            r == old(self).loaded is Some,
            final(self).loaded == (match old(self).loaded {
                Some(v) => Some(
                    transformed_spec(v, VideoOrientationTransformation::RotateRight),
                ),
                None => None,
            }),
            old(self).wf() ==> final(self).wf(),
    {
        self.transform(VideoOrientationTransformation::RotateRight)
    }

    /// Turns the loaded video a quarter counter-clockwise.
    pub fn rotate_left(&mut self) -> (r: bool)
        ensures
            r == old(self).loaded is Some,
            final(self).loaded == (match old(self).loaded {
                Some(v) => Some(transformed_spec(v, VideoOrientationTransformation::RotateLeft)),
                None => None,
            }),
            old(self).wf() ==> final(self).wf(),
    {
        self.transform(VideoOrientationTransformation::RotateLeft)
    }

    /// Mirrors the loaded video left to right.
    pub fn horizontal_flip(&mut self) -> (r: bool)
        ensures
            r == old(self).loaded is Some,
            final(self).loaded == (match old(self).loaded {
                Some(v) => Some(
                    transformed_spec(v, VideoOrientationTransformation::HorizontalFlip),
                ),
                None => None,
            }),
            old(self).wf() ==> final(self).wf(),
    {
        self.transform(VideoOrientationTransformation::HorizontalFlip)
    }

    /// Mirrors the loaded video top to bottom.
    pub fn vertical_flip(&mut self) -> (r: bool)
        ensures
            r == old(self).loaded is Some,
            final(self).loaded == (match old(self).loaded {
                Some(v) => Some(
                    transformed_spec(v, VideoOrientationTransformation::VerticalFlip),
                ),
                None => None,
            }),
            old(self).wf() ==> final(self).wf(),
    {
        self.transform(VideoOrientationTransformation::VerticalFlip)
    }

    /// Silences a loaded video; says whether one is loaded.
    pub fn mute(&mut self) -> (r: bool)
        ensures
            r == old(self).loaded is Some,
            final(self).loaded == (match old(self).loaded {
                Some(v) => Some(muted_spec(v, true)),
                None => None,
            }),
            old(self).wf() ==> final(self).wf(),
    {
        match self.loaded {
            Some(v) => {
                self.loaded = Some(LoadedVideo { mute: true, ..v });
                true
            },
            None => false,
        }
    }

    /// Unsilences a loaded video; says whether one is loaded.
    pub fn unmute(&mut self) -> (r: bool)
        ensures
            r == old(self).loaded is Some,
            final(self).loaded == (match old(self).loaded {
                Some(v) => Some(muted_spec(v, false)),
                None => None,
            }),
            old(self).wf() ==> final(self).wf(),
    {
        match self.loaded {
            Some(v) => {
                self.loaded = Some(LoadedVideo { mute: false, ..v });
                true
            },
            None => false,
        }
    }
}

/// Building the pipeline anew keeps a well-formed loaded video as it was,
/// except that playback is no longer at its end.
pub proof fn law_refresh_keeps_state(v: LoadedVideo)
    requires
        v.wf(),
    ensures
        rebuilt_spec(v) == (LoadedVideo { ended: false, ..v }),
        rebuilt_spec(v).wf(),
{
}

/// Every orientation operation keeps a loaded video well formed.
pub proof fn law_transform_keeps_wf(v: LoadedVideo, t: VideoOrientationTransformation)
    requires
        v.wf(),
    ensures
        transformed_spec(v, t).wf(),
{
    crate::orientation::law_transform_swaps(v.orientation, t);
}

/// Turning right then left, or left then right, gives back the loaded video.
pub proof fn law_rotations_cancel(v: LoadedVideo)
    ensures
        transformed_spec(
            transformed_spec(v, VideoOrientationTransformation::RotateRight),
            VideoOrientationTransformation::RotateLeft,
        ) == v,
        transformed_spec(
            transformed_spec(v, VideoOrientationTransformation::RotateLeft),
            VideoOrientationTransformation::RotateRight,
        ) == v,
{
    crate::orientation::law_rotations_cancel(v.orientation);
}

/// Each flip, done twice, gives back the loaded video.
pub proof fn law_flips_cancel(v: LoadedVideo)
    ensures
        transformed_spec(
            transformed_spec(v, VideoOrientationTransformation::HorizontalFlip),
            VideoOrientationTransformation::HorizontalFlip,
        ) == v,
        transformed_spec(
            transformed_spec(v, VideoOrientationTransformation::VerticalFlip),
            VideoOrientationTransformation::VerticalFlip,
        ) == v,
{
    crate::orientation::law_flips_are_involutions(v.orientation);
}

/// After a seek to the end of the kept range, playing starts over at its start.
pub proof fn law_play_after_end_restarts(v: LoadedVideo)
    ensures
        play_seek_spec(seeked_spec(v, v.outpoint)) == Some(v.inpoint),
        playing_spec(seeked_spec(v, v.outpoint)).ended == false,
{
}

/// A seek elsewhere than the end leaves the ended mark as it was.
pub proof fn law_seek_elsewhere_keeps_ended(v: LoadedVideo, position: u64)
    requires
        position != v.outpoint,
    ensures
        seeked_spec(v, position) == v,
{
}

/// A kept range, once set, is what the preview reports.
pub proof fn law_range_read_back(v: LoadedVideo, start: u64, end: u64)
    ensures
        ranged_spec(v, start, end).inpoint == start,
        ranged_spec(v, start, end).outpoint == end,
{
}

} // verus!

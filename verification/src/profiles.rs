//! Output containers and the video and audio encodings that each of them can
//! hold, with the names under which they are shown and the media types under
//! which the encoder is asked for them.
//!
//! Whether an encoder for a video encoding is installed is a property of the
//! machine, not of this library; the functions that depend on it take the
//! installed encodings as an argument.
use vstd::prelude::*;

verus! {

/// An output container.
#[derive(Debug, Copy, Clone, PartialEq, Eq, Structural)]
pub enum ContainerFormat {
    Best,
    Matroska,
    Mpeg,
    WebM,
    GifContainer,
}

/// The container chosen for the output: the input's own, or a given format.
#[derive(Debug, Copy, Clone, PartialEq, Eq, Structural)]
pub enum ContainerSelection {
    Same,
    Format(ContainerFormat),
}

/// A video encoding.
#[derive(Debug, Copy, Clone, PartialEq, Eq, Structural)]
pub enum VideoEncoding {
    Av1,
    Vp8,
    Vp9,
    H264,
    H265,
    Gif,
}

/// An audio encoding.
#[derive(Debug, Copy, Clone, PartialEq, Eq, Structural)]
pub enum AudioEncoding {
    Aac,
    Ac3,
    Opus,
    Vorbis,
    Flac,
}

/// Everything that decides the form of the output file.
#[derive(Debug, Copy, Clone)]
pub struct OutputFormat {
    pub container_selection: ContainerSelection,
    pub video_encoding: Option<VideoEncoding>,
    pub audio_encoding: Option<AudioEncoding>,
}

/// The video encodings a container can hold, in order of preference.
pub open spec fn candidate_video_spec(c: ContainerFormat) -> Seq<VideoEncoding> {
    match c {
        ContainerFormat::Best => seq![VideoEncoding::Av1],
        ContainerFormat::Matroska => seq![
            VideoEncoding::Av1,
            VideoEncoding::Vp9,
            VideoEncoding::Vp8,
            VideoEncoding::H264,
            VideoEncoding::H265,
        ],
        ContainerFormat::Mpeg => seq![
            VideoEncoding::Av1,
            VideoEncoding::Vp9,
            VideoEncoding::Vp8,
            VideoEncoding::H264,
            VideoEncoding::H265,
        ],
        ContainerFormat::WebM => seq![VideoEncoding::Av1, VideoEncoding::Vp8, VideoEncoding::Vp9],
        ContainerFormat::GifContainer => seq![VideoEncoding::Gif],
    }
}

/// Membership in the installed encodings, as a predicate.
pub open spec fn installed_in(available: Seq<VideoEncoding>) -> spec_fn(VideoEncoding) -> bool {
    |v: VideoEncoding| available.contains(v)
}

/// The video encodings a container can hold for which an encoder is installed.
pub open spec fn viable_video_spec(c: ContainerFormat, available: Seq<VideoEncoding>) -> Seq<
    VideoEncoding,
> {
    candidate_video_spec(c).filter(installed_in(available))
}

/// The audio encodings a container can hold, in order of preference.
pub open spec fn viable_audio_spec(c: ContainerFormat) -> Seq<AudioEncoding> {
    match c {
        ContainerFormat::Best => seq![AudioEncoding::Opus],
        ContainerFormat::Matroska => seq![
            AudioEncoding::Vorbis,
            AudioEncoding::Opus,
            AudioEncoding::Aac,
            AudioEncoding::Ac3,
            AudioEncoding::Flac,
        ],
        ContainerFormat::Mpeg => seq![
            AudioEncoding::Opus,
            AudioEncoding::Aac,
            AudioEncoding::Ac3,
            AudioEncoding::Flac,
        ],
        ContainerFormat::WebM => seq![AudioEncoding::Vorbis, AudioEncoding::Opus],
        ContainerFormat::GifContainer => Seq::<AudioEncoding>::empty(),
    }
}

/// Every video encoding, in declaration order.
pub open spec fn all_video_spec() -> Seq<VideoEncoding> {
    seq![
        VideoEncoding::Av1,
        VideoEncoding::Vp8,
        VideoEncoding::Vp9,
        VideoEncoding::H264,
        VideoEncoding::H265,
        VideoEncoding::Gif,
    ]
}

/// Every container format, in declaration order.
pub open spec fn all_containers_spec() -> Seq<ContainerFormat> {
    seq![
        ContainerFormat::Best,
        ContainerFormat::Matroska,
        ContainerFormat::Mpeg,
        ContainerFormat::WebM,
        ContainerFormat::GifContainer,
    ]
}

/// The position of a selection in the offered list: the recommended format
/// first, then keeping the input's container, then the rest.
pub open spec fn priority_spec(s: ContainerSelection) -> u8 {
    match s {
        ContainerSelection::Format(ContainerFormat::Best) => 0,
        ContainerSelection::Same => 1,
        _ => 2,
    }
}

/// Having a given display priority, as a predicate.
pub open spec fn has_priority(p: u8) -> spec_fn(ContainerSelection) -> bool {
    |s: ContainerSelection| priority_spec(s) == p
}

/// A container can be offered when some video encoding it holds is installed.
pub open spec fn offered_in(available: Seq<VideoEncoding>) -> spec_fn(ContainerFormat) -> bool {
    |c: ContainerFormat| viable_video_spec(c, available).len() > 0
}

/// The offered selections before ordering: the offered formats in
/// declaration order, then keeping the input's container.
pub open spec fn unordered_selections_spec(available: Seq<VideoEncoding>) -> Seq<
    ContainerSelection,
> {
    all_containers_spec().filter(offered_in(available)).map_values(
        |c: ContainerFormat| ContainerSelection::Format(c),
    ).push(ContainerSelection::Same)
}

/// A stable sort by display priority, whose values are 0, 1 and 2.
pub open spec fn sorted_by_priority(s: Seq<ContainerSelection>) -> Seq<ContainerSelection> {
    s.filter(has_priority(0)) + s.filter(has_priority(1)) + s.filter(has_priority(2))
}

/// The offered selections, in the order they are shown.
pub open spec fn get_all_spec(available: Seq<VideoEncoding>) -> Seq<ContainerSelection> {
    sorted_by_priority(unordered_selections_spec(available))
}

/// Whether `e` is among `list`.
fn contains_encoding(list: &Vec<VideoEncoding>, e: VideoEncoding) -> (r: bool)
    ensures
        r == list@.contains(e),
{
    let mut i: usize = 0;
    while i < list.len()
        invariant
            i <= list@.len(),
            forall|k: int| 0 <= k < i ==> list@[k] != e,
        decreases list@.len() - i,
    {
        if list[i] == e {
            return true;
        }
        i = i + 1;
    }
    false
}

/// A name to show: its text, and whether the text is a message to look up
/// in the user's language catalog before it is shown.
#[derive(Debug, Clone, PartialEq, Eq)]
pub struct DisplayName {
    pub text: String,
    pub translatable: bool,
}

impl ContainerFormat {
    /// The video encodings this container can hold, in order of preference.
    pub fn candidate_video_encodings(&self) -> (r: Vec<VideoEncoding>)
        ensures
            r@ == candidate_video_spec(*self),
    {
        match self {
            ContainerFormat::Best => vec![VideoEncoding::Av1],
            ContainerFormat::Matroska => vec![
                VideoEncoding::Av1,
                VideoEncoding::Vp9,
                VideoEncoding::Vp8,
                VideoEncoding::H264,
                VideoEncoding::H265,
            ],
            ContainerFormat::Mpeg => vec![
                VideoEncoding::Av1,
                VideoEncoding::Vp9,
                VideoEncoding::Vp8,
                VideoEncoding::H264,
                VideoEncoding::H265,
            ],
            ContainerFormat::WebM => vec![
                VideoEncoding::Av1,
                VideoEncoding::Vp8,
                VideoEncoding::Vp9,
            ],
            ContainerFormat::GifContainer => vec![VideoEncoding::Gif],
        }
    }

    /// The video encodings this container can hold for which an encoder is
    /// installed (`available`), in order of preference.
    pub fn viable_video_encodings(&self, available: &Vec<VideoEncoding>) -> (r: Vec<VideoEncoding>)
        ensures
            r@ == viable_video_spec(*self, available@),
    {
        let candidates = self.candidate_video_encodings();
        let ghost pred = installed_in(available@);
        let mut r: Vec<VideoEncoding> = Vec::new();
        let mut i: usize = 0;
        proof {
            reveal_with_fuel(Seq::filter, 1);
        }
        while i < candidates.len()
            invariant
                i <= candidates@.len(),
                candidates@ == candidate_video_spec(*self),
                pred == installed_in(available@),
                r@ == candidates@.take(i as int).filter(pred),
            decreases candidates@.len() - i,
        {
            let v = candidates[i];
            proof {
                assert(candidates@.take(i + 1).drop_last() =~= candidates@.take(i as int));
                assert(candidates@.take(i + 1).last() == v);
                reveal_with_fuel(Seq::filter, 1);
                assert(pred(v) == available@.contains(v));
            }
            if contains_encoding(available, v) {
                r.push(v);
            }
            i = i + 1;
        }
        assert(candidates@.take(candidates@.len() as int) =~= candidates@);
        r
    }

    /// The audio encodings this container can hold, in order of preference.
    pub fn viable_audio_encodings(&self) -> (r: Vec<AudioEncoding>)
        ensures
            r@ == viable_audio_spec(*self),
    {
        match self {
            ContainerFormat::Best => vec![AudioEncoding::Opus],
            ContainerFormat::Matroska => vec![
                AudioEncoding::Vorbis,
                AudioEncoding::Opus,
                AudioEncoding::Aac,
                AudioEncoding::Ac3,
                AudioEncoding::Flac,
            ],
            ContainerFormat::Mpeg => vec![
                AudioEncoding::Opus,
                AudioEncoding::Aac,
                AudioEncoding::Ac3,
                AudioEncoding::Flac,
            ],
            ContainerFormat::WebM => vec![AudioEncoding::Vorbis, AudioEncoding::Opus],
            ContainerFormat::GifContainer => Vec::new(),
        }
    }

    /// The media type of the container.
    pub fn format(&self) -> (r: &'static str)
        ensures
            r@ == container_media_type(*self),
    {
        match self {
            ContainerFormat::Best => "video/webm",
            ContainerFormat::Matroska => "video/x-matroska",
            ContainerFormat::Mpeg => "video/quicktime",
            ContainerFormat::WebM => "video/webm",
            ContainerFormat::GifContainer => "image/gif",
        }
    }

    /// The file name extension of the container.
    pub fn extension(&self) -> (r: &'static str)
        ensures
            r@ == container_extension(*self),
    {
        match self {
            ContainerFormat::Best => "webm",
            ContainerFormat::Matroska => "mkv",
            ContainerFormat::Mpeg => "mp4",
            ContainerFormat::WebM => "webm",
            ContainerFormat::GifContainer => "gif",
        }
    }

    /// The name under which the container is offered. The recommended
    /// format's name is a message to translate for the user's locale; the
    /// others are shown as they are.
    pub fn for_display(&self) -> (r: DisplayName)
        ensures
            r.text@ == container_display_name(*self),
            r.translatable == (*self == ContainerFormat::Best),
    {
        match self {
            ContainerFormat::Best => DisplayName {
                text: "Recommended (WEBM, AV1, Opus)".to_owned(),
                translatable: true,
            },
            ContainerFormat::Matroska => DisplayName { text: "MKV".to_owned(), translatable: false },
            ContainerFormat::Mpeg => DisplayName { text: "MP4".to_owned(), translatable: false },
            ContainerFormat::WebM => DisplayName { text: "WEBM".to_owned(), translatable: false },
            ContainerFormat::GifContainer => DisplayName {
                text: "GIF".to_owned(),
                translatable: false,
            },
        }
    }
}

/// The selections in `v` with display priority `p`, in their order.
fn with_priority(v: &Vec<ContainerSelection>, p: u8) -> (r: Vec<ContainerSelection>)
    ensures
        r@ == v@.filter(has_priority(p)),
{
    let ghost pred = has_priority(p);
    let mut r: Vec<ContainerSelection> = Vec::new();
    let mut i: usize = 0;
    proof {
        reveal_with_fuel(Seq::filter, 1);
    }
    while i < v.len()
        invariant
            i <= v@.len(),
            pred == has_priority(p),
            r@ == v@.take(i as int).filter(pred),
        decreases v@.len() - i,
    {
        let s = v[i];
        proof {
            assert(v@.take(i + 1).drop_last() =~= v@.take(i as int));
            assert(v@.take(i + 1).last() == s);
            reveal_with_fuel(Seq::filter, 1);
        }
        if s.display_priority() == p {
            r.push(s);
        }
        i = i + 1;
    }
    assert(v@.take(v@.len() as int) =~= v@);
    r
}

impl ContainerSelection {
    /// The position of this selection in the offered list.
    pub fn display_priority(&self) -> (r: u8)
        ensures
            r == priority_spec(*self),
    {
        match self {
            ContainerSelection::Format(ContainerFormat::Best) => 0,
            ContainerSelection::Same => 1,
            _ => 2,
        }
    }

    /// The selections offered to the user, given the installed video
    /// encodings: every container that can hold one of them, and keeping the
    /// input's container; the recommended format first, keeping the input's
    /// container next, then the other formats in declaration order.
    pub fn get_all(available: &Vec<VideoEncoding>) -> (r: Vec<ContainerSelection>)
        ensures
            r@ == get_all_spec(available@),
    {
        let containers = vec![
            ContainerFormat::Best,
            ContainerFormat::Matroska,
            ContainerFormat::Mpeg,
            ContainerFormat::WebM,
            ContainerFormat::GifContainer,
        ];
        let ghost offered = offered_in(available@);
        let ghost fmt = |c: ContainerFormat| ContainerSelection::Format(c);
        let mut unordered: Vec<ContainerSelection> = Vec::new();
        let mut i: usize = 0;
        proof {
            reveal_with_fuel(Seq::filter, 1);
            assert(containers@.take(0).filter(offered).map_values(fmt) =~= Seq::<
                ContainerSelection,
            >::empty());
        }
        while i < containers.len()
            invariant
                i <= containers@.len(),
                containers@ == all_containers_spec(),
                offered == offered_in(available@),
                fmt == (|c: ContainerFormat| ContainerSelection::Format(c)),
                unordered@ == containers@.take(i as int).filter(offered).map_values(fmt),
            decreases containers@.len() - i,
        {
            let c = containers[i];
            let ghost before = containers@.take(i as int).filter(offered);
            proof {
                assert(containers@.take(i + 1).drop_last() =~= containers@.take(i as int));
                assert(containers@.take(i + 1).last() == c);
                reveal_with_fuel(Seq::filter, 1);
            }
            let viable = c.viable_video_encodings(available);
            if viable.len() > 0 {
                unordered.push(ContainerSelection::Format(c));
                proof {
                    assert(before.push(c).map_values(fmt) =~= before.map_values(fmt).push(
                        ContainerSelection::Format(c),
                    ));
                }
            }
            i = i + 1;
        }
        assert(containers@.take(containers@.len() as int) =~= containers@);
        unordered.push(ContainerSelection::Same);
        let mut first = with_priority(&unordered, 0);
        let mut second = with_priority(&unordered, 1);
        let mut third = with_priority(&unordered, 2);
        first.append(&mut second);
        first.append(&mut third);
        first
    }

    /// The file name extension of the output: the input's own when its
    /// container is kept, else that of the chosen format.
    pub fn output_extension<'a>(&self, input_extension: &'a str) -> (r: &'a str)
        ensures
            r@ == (match *self {
                ContainerSelection::Same => input_extension@,
                ContainerSelection::Format(f) => container_extension(f),
            }),
    {
        match self {
            ContainerSelection::Same => input_extension,
            ContainerSelection::Format(f) => f.extension(),
        }
    }

    /// The name under which the selection is offered; keeping the input's
    /// container is a message to translate for the user's locale.
    pub fn for_display(&self) -> (r: DisplayName)
        ensures
            r.text@ == (match *self {
                ContainerSelection::Same => "Keep as-is"@,
                ContainerSelection::Format(f) => container_display_name(f),
            }),
            r.translatable == (match *self {
                ContainerSelection::Same => true,
                ContainerSelection::Format(f) => f == ContainerFormat::Best,
            }),
    {
        match self {
            ContainerSelection::Same => DisplayName { text: "Keep as-is".to_owned(), translatable: true },
            ContainerSelection::Format(f) => f.for_display(),
        }
    }
}

/// The media type under which the encoder is asked for each video encoding.
pub open spec fn video_media_type(v: VideoEncoding) -> Seq<char> {
    match v {
        VideoEncoding::Av1 => "video/x-av1"@,
        VideoEncoding::Vp8 => "video/x-vp8"@,
        VideoEncoding::Vp9 => "video/x-vp9"@,
        VideoEncoding::H264 => "video/x-h264"@,
        VideoEncoding::H265 => "video/x-h265"@,
        VideoEncoding::Gif => "image/gif"@,
    }
}

/// The shown name of each video encoding.
pub open spec fn video_display_name(v: VideoEncoding) -> Seq<char> {
    match v {
        VideoEncoding::Av1 => "AV1"@,
        VideoEncoding::Vp8 => "VP8"@,
        VideoEncoding::Vp9 => "VP9"@,
        VideoEncoding::H264 => "H264"@,
        VideoEncoding::H265 => "H265"@,
        VideoEncoding::Gif => "GIF"@,
    }
}

impl VideoEncoding {
    /// Every video encoding, in declaration order.
    pub fn all() -> (r: Vec<VideoEncoding>)
        ensures
            r@ == all_video_spec(),
    {
        vec![
            VideoEncoding::Av1,
            VideoEncoding::Vp8,
            VideoEncoding::Vp9,
            VideoEncoding::H264,
            VideoEncoding::H265,
            VideoEncoding::Gif,
        ]
    }

    /// The media type under which an encoder is asked for this encoding.
    pub fn get_format(&self) -> (r: &'static str)
        ensures
            r@ == video_media_type(*self),
    {
        match self {
            VideoEncoding::Av1 => "video/x-av1",
            VideoEncoding::Vp8 => "video/x-vp8",
            VideoEncoding::Vp9 => "video/x-vp9",
            VideoEncoding::H264 => "video/x-h264",
            VideoEncoding::H265 => "video/x-h265",
            VideoEncoding::Gif => "image/gif",
        }
    }

    /// The name under which the encoding is offered.
    pub fn for_display(&self) -> (r: &'static str)
        ensures
            r@ == video_display_name(*self),
    {
        match self {
            VideoEncoding::Av1 => "AV1",
            VideoEncoding::Vp8 => "VP8",
            VideoEncoding::Vp9 => "VP9",
            VideoEncoding::H264 => "H264",
            VideoEncoding::H265 => "H265",
            VideoEncoding::Gif => "GIF",
        }
    }
}

/// The media type of each audio encoding.
pub open spec fn audio_media_type(a: AudioEncoding) -> Seq<char> {
    match a {
        AudioEncoding::Aac => "audio/mpeg"@,
        AudioEncoding::Ac3 => "audio/x-ac3"@,
        AudioEncoding::Opus => "audio/x-opus"@,
        AudioEncoding::Vorbis => "audio/x-vorbis"@,
        AudioEncoding::Flac => "audio/x-flac"@,
    }
}

/// The shown name of each audio encoding.
pub open spec fn audio_display_name(a: AudioEncoding) -> Seq<char> {
    match a {
        AudioEncoding::Aac => "AAC"@,
        AudioEncoding::Ac3 => "AC3"@,
        AudioEncoding::Opus => "Opus"@,
        AudioEncoding::Vorbis => "Vorbis"@,
        AudioEncoding::Flac => "FLAC"@,
    }
}

impl AudioEncoding {
    /// The media type of this encoding.
    pub fn get_format(&self) -> (r: &'static str)
        ensures
            r@ == audio_media_type(*self),
    {
        match self {
            AudioEncoding::Aac => "audio/mpeg",
            AudioEncoding::Ac3 => "audio/x-ac3",
            AudioEncoding::Opus => "audio/x-opus",
            AudioEncoding::Vorbis => "audio/x-vorbis",
            AudioEncoding::Flac => "audio/x-flac",
        }
    }

    /// The name under which the encoding is offered.
    pub fn for_display(&self) -> (r: &'static str)
        ensures
            r@ == audio_display_name(*self),
    {
        match self {
            AudioEncoding::Aac => "AAC",
            AudioEncoding::Ac3 => "AC3",
            AudioEncoding::Opus => "Opus",
            AudioEncoding::Vorbis => "Vorbis",
            AudioEncoding::Flac => "FLAC",
        }
    }
}

/// The viable video encodings of a container are among its candidates and
/// among the installed encodings.
pub proof fn law_viable_video_are_installed_candidates(
    c: ContainerFormat,
    available: Seq<VideoEncoding>,
    i: int,
)
    requires
        0 <= i < viable_video_spec(c, available).len(),
    ensures
        available.contains(viable_video_spec(c, available)[i]),
        candidate_video_spec(c).contains(viable_video_spec(c, available)[i]),
{
    let f = candidate_video_spec(c).filter(installed_in(available));
    candidate_video_spec(c).lemma_filter_pred(installed_in(available), i);
    candidate_video_spec(c).lemma_filter_contains_rev(installed_in(available), f[i]);
    assert(f.contains(f[i]));
}

proof fn lemma_filter_keeps_all<A>(s: Seq<A>, p: spec_fn(A) -> bool)
    requires
        forall|i: int| 0 <= i < s.len() ==> p(#[trigger] s[i]),
    ensures
        s.filter(p) == s,
    decreases s.len(),
{
    reveal_with_fuel(Seq::filter, 1);
    if s.len() > 0 {
        lemma_filter_keeps_all(s.drop_last(), p);
        assert(s.drop_last().push(s.last()) =~= s);
    }
}

proof fn lemma_filter_keeps_none<A>(s: Seq<A>, p: spec_fn(A) -> bool)
    requires
        forall|i: int| 0 <= i < s.len() ==> !p(#[trigger] s[i]),
    ensures
        s.filter(p) == Seq::<A>::empty(),
    decreases s.len(),
{
    reveal_with_fuel(Seq::filter, 1);
    if s.len() > 0 {
        lemma_filter_keeps_none(s.drop_last(), p);
    }
}

/// The offered list, written out: the recommended format when AV1 can be
/// encoded, keeping the input's container, then the other formats that can
/// hold an installed encoding, in declaration order.
pub proof fn law_get_all_layout(available: Seq<VideoEncoding>)
    ensures
        get_all_spec(available) == (if available.contains(VideoEncoding::Av1) {
            seq![ContainerSelection::Format(ContainerFormat::Best)]
        } else {
            Seq::<ContainerSelection>::empty()
        }) + seq![ContainerSelection::Same] + seq![
            ContainerFormat::Matroska,
            ContainerFormat::Mpeg,
            ContainerFormat::WebM,
            ContainerFormat::GifContainer,
        ].filter(offered_in(available)).map_values(
            |c: ContainerFormat| ContainerSelection::Format(c),
        ),
{
    let a = available;
    let fmt = |c: ContainerFormat| ContainerSelection::Format(c);
    let offered = offered_in(a);
    let best = seq![ContainerFormat::Best];
    let rest = seq![
        ContainerFormat::Matroska,
        ContainerFormat::Mpeg,
        ContainerFormat::WebM,
        ContainerFormat::GifContainer,
    ];
    reveal_with_fuel(Seq::filter, 2);
    assert(viable_video_spec(ContainerFormat::Best, a).len() > 0 <==> a.contains(
        VideoEncoding::Av1,
    )) by {
        assert(candidate_video_spec(ContainerFormat::Best).drop_last() =~= Seq::<
            VideoEncoding,
        >::empty());
    }
    assert(all_containers_spec() =~= best + rest);
    Seq::filter_distributes_over_add(best, rest, offered);
    let best_part = best.filter(offered).map_values(fmt);
    let rest_part = rest.filter(offered).map_values(fmt);
    let same = seq![ContainerSelection::Same];
    assert(best_part =~= (if a.contains(VideoEncoding::Av1) {
        seq![ContainerSelection::Format(ContainerFormat::Best)]
    } else {
        Seq::<ContainerSelection>::empty()
    })) by {
        assert(best.drop_last() =~= Seq::<ContainerFormat>::empty());
    }
    let u = unordered_selections_spec(a);
    assert(u =~= best_part + rest_part + same);
    assert forall|i: int| 0 <= i < rest_part.len() implies (#[trigger] rest_part[i]) !=
        ContainerSelection::Format(ContainerFormat::Best) by {
        rest.lemma_filter_pred(offered, i);
        rest.lemma_filter_contains_rev(offered, rest.filter(offered)[i]);
        assert(rest.filter(offered).contains(rest.filter(offered)[i]));
    }
    Seq::filter_distributes_over_add(best_part + rest_part, same, has_priority(0));
    Seq::filter_distributes_over_add(best_part, rest_part, has_priority(0));
    Seq::filter_distributes_over_add(best_part + rest_part, same, has_priority(1));
    Seq::filter_distributes_over_add(best_part, rest_part, has_priority(1));
    Seq::filter_distributes_over_add(best_part + rest_part, same, has_priority(2));
    Seq::filter_distributes_over_add(best_part, rest_part, has_priority(2));
    lemma_filter_keeps_all(best_part, has_priority(0));
    lemma_filter_keeps_none(best_part, has_priority(1));
    lemma_filter_keeps_none(best_part, has_priority(2));
    lemma_filter_keeps_none(rest_part, has_priority(0));
    lemma_filter_keeps_none(rest_part, has_priority(1));
    lemma_filter_keeps_all(rest_part, has_priority(2));
    lemma_filter_keeps_none(same, has_priority(0));
    lemma_filter_keeps_all(same, has_priority(1));
    lemma_filter_keeps_none(same, has_priority(2));
    assert(get_all_spec(a) =~= best_part + same + rest_part);
}

/// The offered list always offers keeping the input's container.
pub proof fn law_get_all_offers_same(available: Seq<VideoEncoding>)
    ensures
        get_all_spec(available).contains(ContainerSelection::Same),
{
    law_get_all_layout(available);
    let p = if available.contains(VideoEncoding::Av1) {
        1int
    } else {
        0int
    };
    assert(get_all_spec(available)[p] == ContainerSelection::Same);
}

/// The recommended format comes first whenever AV1 can be encoded, and
/// keeping the input's container comes first otherwise.
pub proof fn law_get_all_first(available: Seq<VideoEncoding>)
    ensures
        available.contains(VideoEncoding::Av1) ==> get_all_spec(available)[0]
            == ContainerSelection::Format(ContainerFormat::Best),
        !available.contains(VideoEncoding::Av1) ==> get_all_spec(available)[0]
            == ContainerSelection::Same,
{
    law_get_all_layout(available);
}

/// Every format offered can hold an installed video encoding.
pub proof fn law_get_all_formats_viable(available: Seq<VideoEncoding>, i: int)
    requires
        0 <= i < get_all_spec(available).len(),
    ensures
        get_all_spec(available)[i] matches ContainerSelection::Format(c) ==> viable_video_spec(
            c,
            available,
        ).len() > 0,
{
    law_get_all_layout(available);
    let rest = seq![
        ContainerFormat::Matroska,
        ContainerFormat::Mpeg,
        ContainerFormat::WebM,
        ContainerFormat::GifContainer,
    ];
    let offered = offered_in(available);
    let k = if available.contains(VideoEncoding::Av1) {
        i - 2
    } else {
        i - 1
    };
    if 0 <= k < rest.filter(offered).len() {
        rest.lemma_filter_pred(offered, k);
    }
    if available.contains(VideoEncoding::Av1) && i == 0 {
        reveal_with_fuel(Seq::filter, 2);
        assert(candidate_video_spec(ContainerFormat::Best).drop_last() =~= Seq::<
            VideoEncoding,
        >::empty());
    }
}

/// The recommended format is a WebM file (the same media type) with the
/// encodings it names: everything it can hold, a WebM file can hold too.
pub proof fn law_recommended_is_webm(v: VideoEncoding, a: AudioEncoding)
    ensures
        container_media_type(ContainerFormat::Best) == container_media_type(ContainerFormat::WebM),
        candidate_video_spec(ContainerFormat::Best).contains(v) ==> candidate_video_spec(
            ContainerFormat::WebM,
        ).contains(v),
        viable_audio_spec(ContainerFormat::Best).contains(a) ==> viable_audio_spec(
            ContainerFormat::WebM,
        ).contains(a),
        candidate_video_spec(ContainerFormat::Best).contains(VideoEncoding::Av1),
        viable_audio_spec(ContainerFormat::Best).contains(AudioEncoding::Opus),
{
    assert(candidate_video_spec(ContainerFormat::Best)[0] == VideoEncoding::Av1);
    assert(candidate_video_spec(ContainerFormat::WebM)[0] == VideoEncoding::Av1);
    assert(viable_audio_spec(ContainerFormat::Best)[0] == AudioEncoding::Opus);
    assert(viable_audio_spec(ContainerFormat::WebM)[1] == AudioEncoding::Opus);
    if candidate_video_spec(ContainerFormat::Best).contains(v) {
        let k = choose|k: int|
            0 <= k < candidate_video_spec(ContainerFormat::Best).len()
                && candidate_video_spec(ContainerFormat::Best)[k] == v;
        assert(k == 0);
    }
    if viable_audio_spec(ContainerFormat::Best).contains(a) {
        let k = choose|k: int|
            0 <= k < viable_audio_spec(ContainerFormat::Best).len() && viable_audio_spec(
                ContainerFormat::Best,
            )[k] == a;
        assert(k == 0);
    }
}

/// With AV1 installed, every container that can hold AV1 offers it, and
/// offers it first: AV1 is the preferred encoding wherever it fits.
pub proof fn law_av1_preferred(c: ContainerFormat, available: Seq<VideoEncoding>)
    requires
        available.contains(VideoEncoding::Av1),
        candidate_video_spec(c).contains(VideoEncoding::Av1),
    ensures
        viable_video_spec(c, available).len() > 0,
        viable_video_spec(c, available)[0] == VideoEncoding::Av1,
{
    let cand = candidate_video_spec(c);
    let k = choose|k: int| 0 <= k < cand.len() && cand[k] == VideoEncoding::Av1;
    assert(k == 0);
    assert(cand =~= seq![cand[0]] + cand.subrange(1, cand.len() as int));
    Seq::filter_distributes_over_add(
        seq![cand[0]],
        cand.subrange(1, cand.len() as int),
        installed_in(available),
    );
    reveal_with_fuel(Seq::filter, 2);
    assert(seq![cand[0]].drop_last() =~= Seq::<VideoEncoding>::empty());
}

/// A Matroska file can hold every encoding that any other container holds.
pub proof fn law_matroska_holds_everything(c: ContainerFormat, v: VideoEncoding, a: AudioEncoding)
    ensures
        candidate_video_spec(c).contains(v) && v != VideoEncoding::Gif ==> candidate_video_spec(
            ContainerFormat::Matroska,
        ).contains(v),
        viable_audio_spec(c).contains(a) ==> viable_audio_spec(ContainerFormat::Matroska).contains(
            a,
        ),
{
    let mv = candidate_video_spec(ContainerFormat::Matroska);
    let ma = viable_audio_spec(ContainerFormat::Matroska);
    assert(mv[0] == VideoEncoding::Av1 && mv[1] == VideoEncoding::Vp9 && mv[2] == VideoEncoding::Vp8
        && mv[3] == VideoEncoding::H264 && mv[4] == VideoEncoding::H265);
    assert(ma[0] == AudioEncoding::Vorbis && ma[1] == AudioEncoding::Opus && ma[2]
        == AudioEncoding::Aac && ma[3] == AudioEncoding::Ac3 && ma[4] == AudioEncoding::Flac);
}

/// A file's extension follows its container's media type: two containers
/// get the same extension exactly when they have the same media type.
pub proof fn law_extension_follows_media_type(a: ContainerFormat, b: ContainerFormat)
    ensures
        (container_extension(a) == container_extension(b)) <==> (container_media_type(a)
            == container_media_type(b)),
{
    reveal_strlit("webm");
    reveal_strlit("mkv");
    reveal_strlit("mp4");
    reveal_strlit("gif");
    reveal_strlit("video/webm");
    reveal_strlit("video/x-matroska");
    reveal_strlit("video/quicktime");
    reveal_strlit("image/gif");
    assert("webm"@[0] != "mkv"@[0] && "webm"@[0] != "mp4"@[0] && "webm"@[0] != "gif"@[0]);
    assert("mkv"@[1] != "mp4"@[1] && "mkv"@[0] != "gif"@[0] && "mp4"@[0] != "gif"@[0]);
    assert("video/webm"@[6] != "video/x-matroska"@[6]);
    assert("video/webm"@[6] != "video/quicktime"@[6]);
    assert("video/webm"@[0] != "image/gif"@[0]);
    assert("video/x-matroska"@[6] != "video/quicktime"@[6]);
    assert("video/x-matroska"@[0] != "image/gif"@[0]);
    assert("video/quicktime"@[0] != "image/gif"@[0]);
}

/// The encoding picked in a list of offered encodings: none when the list is
/// empty, else the one at the selected position.
pub fn selected_encoding<T: Copy>(offered: &Vec<T>, selected: usize) -> (r: Option<T>)
    requires
        offered@.len() == 0 || selected < offered@.len(),
    ensures
        r == (if offered@.len() == 0 {
            None
        } else {
            Some(offered@[selected as int])
        }),
{
    if offered.len() == 0 {
        None
    } else {
        Some(offered[selected])
    }
}

/// The media type of each container.
pub open spec fn container_media_type(c: ContainerFormat) -> Seq<char> {
    match c {
        ContainerFormat::Best => "video/webm"@,
        ContainerFormat::Matroska => "video/x-matroska"@,
        ContainerFormat::Mpeg => "video/quicktime"@,
        ContainerFormat::WebM => "video/webm"@,
        ContainerFormat::GifContainer => "image/gif"@,
    }
}

/// The file name extension of each container.
pub open spec fn container_extension(c: ContainerFormat) -> Seq<char> {
    match c {
        ContainerFormat::Best => "webm"@,
        ContainerFormat::Matroska => "mkv"@,
        ContainerFormat::Mpeg => "mp4"@,
        ContainerFormat::WebM => "webm"@,
        ContainerFormat::GifContainer => "gif"@,
    }
}

/// The shown name of each container (for the recommended one, the message
/// that is translated).
pub open spec fn container_display_name(c: ContainerFormat) -> Seq<char> {
    match c {
        ContainerFormat::Best => "Recommended (WEBM, AV1, Opus)"@,
        ContainerFormat::Matroska => "MKV"@,
        ContainerFormat::Mpeg => "MP4"@,
        ContainerFormat::WebM => "WEBM"@,
        ContainerFormat::GifContainer => "GIF"@,
    }
}

} // verus!

use footage::profiles::{
    selected_encoding, DisplayName, AudioEncoding, ContainerFormat, ContainerSelection, VideoEncoding,
};

use AudioEncoding::{Aac, Ac3, Flac, Opus, Vorbis};
use ContainerFormat::{Best, GifContainer, Matroska, Mpeg, WebM};
use VideoEncoding::{Av1, Vp8, Vp9, H264, H265};

#[test]
fn viable_video_filters_installed() {
    let all = VideoEncoding::all();
    assert_eq!(all, vec![Av1, Vp8, Vp9, H264, H265, VideoEncoding::Gif]);
    assert_eq!(Matroska.viable_video_encodings(&all), vec![Av1, Vp9, Vp8, H264, H265]);
    assert_eq!(WebM.viable_video_encodings(&vec![Vp9, H264, Vp8]), vec![Vp8, Vp9]);
    assert_eq!(Best.viable_video_encodings(&vec![Vp9]), vec![]);
    assert_eq!(GifContainer.viable_video_encodings(&all), vec![VideoEncoding::Gif]);
    assert_eq!(Mpeg.candidate_video_encodings(), vec![Av1, Vp9, Vp8, H264, H265]);
}

#[test]
fn viable_audio_per_container() {
    assert_eq!(Best.viable_audio_encodings(), vec![Opus]);
    assert_eq!(Matroska.viable_audio_encodings(), vec![Vorbis, Opus, Aac, Ac3, Flac]);
    assert_eq!(Mpeg.viable_audio_encodings(), vec![Opus, Aac, Ac3, Flac]);
    assert_eq!(WebM.viable_audio_encodings(), vec![Vorbis, Opus]);
    assert_eq!(GifContainer.viable_audio_encodings(), vec![]);
}

#[test]
fn container_names() {
    assert_eq!(Best.format(), "video/webm");
    assert_eq!(Matroska.format(), "video/x-matroska");
    assert_eq!(Mpeg.format(), "video/quicktime");
    assert_eq!(WebM.format(), "video/webm");
    assert_eq!(GifContainer.format(), "image/gif");
    assert_eq!(Best.extension(), "webm");
    assert_eq!(Matroska.extension(), "mkv");
    assert_eq!(Mpeg.extension(), "mp4");
    assert_eq!(GifContainer.extension(), "gif");
    assert_eq!(Matroska.for_display(), fixed("MKV"));
    assert_eq!(Mpeg.for_display(), fixed("MP4"));
    assert_eq!(WebM.for_display(), fixed("WEBM"));
    assert_eq!(GifContainer.for_display(), fixed("GIF"));
}

fn fixed(text: &str) -> DisplayName {
    DisplayName { text: text.to_owned(), translatable: false }
}

fn message(text: &str) -> DisplayName {
    DisplayName { text: text.to_owned(), translatable: true }
}

#[test]
fn translatable_names() {
    assert_eq!(Best.for_display(), message("Recommended (WEBM, AV1, Opus)"));
    assert_eq!(ContainerSelection::Same.for_display(), message("Keep as-is"));
    assert_eq!(ContainerSelection::Format(Best).for_display(), message("Recommended (WEBM, AV1, Opus)"));
    assert_eq!(ContainerSelection::Format(Mpeg).for_display(), fixed("MP4"));
}

#[test]
fn get_all_with_everything_installed() {
    let all = VideoEncoding::all();
    assert_eq!(
        ContainerSelection::get_all(&all),
        vec![
            ContainerSelection::Format(Best),
            ContainerSelection::Same,
            ContainerSelection::Format(Matroska),
            ContainerSelection::Format(Mpeg),
            ContainerSelection::Format(WebM),
            ContainerSelection::Format(GifContainer),
        ]
    );
}

#[test]
fn get_all_without_av1() {
    assert_eq!(
        ContainerSelection::get_all(&vec![Vp8]),
        vec![
            ContainerSelection::Same,
            ContainerSelection::Format(Matroska),
            ContainerSelection::Format(Mpeg),
            ContainerSelection::Format(WebM),
        ]
    );
    assert_eq!(ContainerSelection::get_all(&vec![]), vec![ContainerSelection::Same]);
    assert_eq!(
        ContainerSelection::get_all(&vec![VideoEncoding::Gif]),
        vec![ContainerSelection::Same, ContainerSelection::Format(GifContainer)]
    );
}

#[test]
fn display_priorities() {
    assert_eq!(ContainerSelection::Format(Best).display_priority(), 0);
    assert_eq!(ContainerSelection::Same.display_priority(), 1);
    assert_eq!(ContainerSelection::Format(WebM).display_priority(), 2);
}

#[test]
fn output_extensions() {
    assert_eq!(ContainerSelection::Same.output_extension("mov"), "mov");
    assert_eq!(ContainerSelection::Format(Matroska).output_extension("mov"), "mkv");
}

#[test]
fn encoding_names() {
    let formats: Vec<&str> = VideoEncoding::all().iter().map(|v| v.get_format()).collect();
    assert_eq!(
        formats,
        vec!["video/x-av1", "video/x-vp8", "video/x-vp9", "video/x-h264", "video/x-h265", "image/gif"]
    );
    let names: Vec<&str> = VideoEncoding::all().iter().map(|v| v.for_display()).collect();
    assert_eq!(names, vec!["AV1", "VP8", "VP9", "H264", "H265", "GIF"]);
    assert_eq!(Aac.get_format(), "audio/mpeg");
    assert_eq!(Ac3.get_format(), "audio/x-ac3");
    assert_eq!(Opus.get_format(), "audio/x-opus");
    assert_eq!(Vorbis.get_format(), "audio/x-vorbis");
    assert_eq!(Flac.get_format(), "audio/x-flac");
    assert_eq!(Aac.for_display(), "AAC");
    assert_eq!(Opus.for_display(), "Opus");
    assert_eq!(Flac.for_display(), "FLAC");
}

#[test]
fn selecting_encodings() {
    assert_eq!(selected_encoding::<VideoEncoding>(&vec![], 3), None);
    assert_eq!(selected_encoding(&vec![Av1, Vp9], 1), Some(Vp9));
}

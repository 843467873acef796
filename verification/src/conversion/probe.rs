//! The prober: its arguments, and what its report comes to.

use vstd::prelude::*;
use vstd::string::StringExecFns;
use crate::conversion::types::{
    AudioTrack, FfprobeOutput, FfprobeStream, ProbeMetadata, SubtitleTrack,
};
use crate::conversion::utils::{
    parse_frame_rate_string, parse_probe_bitrate, parsed_bitrate, parsed_frame_rate,
};
use crate::text::{
    decimal_text, integer_string, integer_text, push_decimal, push_text, str_eq, texts,
};

verus! {

/// The arguments with which the prober reports on a file as JSON.
pub open spec fn probe_args(file_path: Seq<char>) -> Seq<Seq<char>> {
    seq![
        "-v"@,
        "quiet"@,
        "-print_format"@,
        "json"@,
        "-show_format"@,
        "-show_streams"@,
        file_path,
    ]
}

/// The arguments with which the prober reports on a file.
pub fn build_probe_args(file_path: &str) -> (args: Vec<String>)
    ensures
        texts(args@) == probe_args(file_path@),
{
    let mut args: Vec<String> = Vec::new();
    assert(texts(args@) =~= Seq::<Seq<char>>::empty());
    push_text(&mut args, "-v");
    push_text(&mut args, "quiet");
    push_text(&mut args, "-print_format");
    push_text(&mut args, "json");
    push_text(&mut args, "-show_format");
    push_text(&mut args, "-show_streams");
    push_text(&mut args, file_path);
    assert(texts(args@) =~= probe_args(file_path@));
    args
}

/// A copy of a text that may be absent.
pub fn clone_text(text: &Option<String>) -> (copy: Option<String>)
    ensures
        copy == *text,
{
    match text {
        Some(t) => Some(t.clone()),
        None => None,
    }
}

/// The streams of one kind, in their order.
pub open spec fn streams_of(streams: Seq<FfprobeStream>, kind: Seq<char>) -> Seq<FfprobeStream>
    decreases streams.len(),
{
    if streams.len() == 0 {
        Seq::empty()
    } else if streams.last().codec_type@ == kind {
        streams_of(streams.drop_last(), kind).push(streams.last())
    } else {
        streams_of(streams.drop_last(), kind)
    }
}

/// The title in the tags of a stream.
pub open spec fn stream_title(stream: FfprobeStream) -> Option<String> {
    match stream.tags {
        Some(tags) => tags.title,
        None => None,
    }
}

/// The language in the tags of a stream.
pub open spec fn stream_language(stream: FfprobeStream) -> Option<String> {
    match stream.tags {
        Some(tags) => tags.language,
        None => None,
    }
}

/// The name of the codec of a stream, `unknown` where it names none.
pub open spec fn stream_codec(stream: FfprobeStream) -> Seq<char> {
    match stream.codec_name {
        Some(name) => name@,
        None => "unknown"@,
    }
}

/// The number of channels of a stream as text, `?` where it names none.
pub open spec fn stream_channels(stream: FfprobeStream) -> Seq<char> {
    match stream.channels {
        Some(n) => integer_text(n as int),
        None => "?"@,
    }
}

/// The bit rate that a stream states, in millionths of a kilobit per second.
pub open spec fn stream_bitrate(stream: FfprobeStream) -> Option<u64> {
    match stream.bit_rate {
        Some(text) => parsed_bitrate(text@),
        None => None,
    }
}

/// Whether `track` describes the audio stream `stream`.
pub open spec fn describes_audio(track: AudioTrack, stream: FfprobeStream) -> bool {
    &&& track.index == stream.index
    &&& track.codec@ == stream_codec(stream)
    &&& track.channels@ == stream_channels(stream)
    &&& track.label == stream_title(stream)
    &&& track.language == stream_language(stream)
    &&& track.bitrate_kbps == stream_bitrate(stream)
    &&& track.sample_rate == stream.sample_rate
}

/// Whether `track` describes the subtitle stream `stream`.
pub open spec fn describes_subtitle(track: SubtitleTrack, stream: FfprobeStream) -> bool {
    &&& track.index == stream.index
    &&& track.codec@ == stream_codec(stream)
    &&& track.label == stream_title(stream)
    &&& track.language == stream_language(stream)
}

/// The sum of the bit rates that the tracks state.
pub open spec fn audio_bitrate_sum(tracks: Seq<AudioTrack>) -> int
    decreases tracks.len(),
{
    if tracks.len() == 0 {
        0
    } else {
        audio_bitrate_sum(tracks.drop_last()) + match tracks.last().bitrate_kbps {
            Some(rate) => rate as int,
            None => 0,
        }
    }
}

/// The size of the picture of a stream, where it states a width and a height
/// that are both positive.
pub open spec fn picture_size(stream: FfprobeStream) -> Option<(u32, u32)> {
    match (stream.width, stream.height) {
        (Some(w), Some(h)) => if w > 0 && h > 0 {
            Some((w as u32, h as u32))
        } else {
            None
        },
        _ => None,
    }
}

/// The bit rate of the video: what the video stream states, or else what is
/// left of the container's bit rate once the audio tracks have had theirs,
/// where anything is left.
pub open spec fn video_bitrate(
    video: Option<FfprobeStream>,
    container: Option<String>,
    tracks: Seq<AudioTrack>,
) -> Option<u64> {
    let stated = match video {
        Some(stream) => stream_bitrate(stream),
        None => None,
    };
    if stated is Some {
        stated
    } else {
        let whole = match container {
            Some(text) => parsed_bitrate(text@),
            None => None,
        };
        match whole {
            Some(rate) => if rate > audio_bitrate_sum(tracks) {
                Some((rate - audio_bitrate_sum(tracks)) as u64)
            } else {
                None
            },
            None => None,
        }
    }
}

/// The first video stream of a report, if it has one.
pub open spec fn video_stream(streams: Seq<FfprobeStream>) -> Option<FfprobeStream> {
    if streams_of(streams, "video"@).len() > 0 {
        Some(streams_of(streams, "video"@)[0])
    } else {
        None
    }
}

/// Whether `metadata` is what the prober's report `probe` comes to.
pub open spec fn summarises(metadata: ProbeMetadata, probe: FfprobeOutput) -> bool {
    let audio = streams_of(probe.streams@, "audio"@);
    let subtitles = streams_of(probe.streams@, "subtitle"@);
    let video = video_stream(probe.streams@);
    &&& metadata.duration == probe.format.duration
    &&& metadata.bitrate == probe.format.bit_rate
    &&& metadata.tags == probe.format.tags
    &&& match video {
        Some(stream) => {
            &&& metadata.video_codec == stream.codec_name
            &&& metadata.pixel_format == stream.pix_fmt
            &&& metadata.color_space == stream.color_space
            &&& metadata.color_range == stream.color_range
            &&& metadata.color_primaries == stream.color_primaries
            &&& metadata.profile == stream.profile
            &&& metadata.frame_rate == match stream.avg_frame_rate {
                Some(text) => parsed_frame_rate(text@),
                None => None,
            }
            &&& match picture_size(stream) {
                Some((w, h)) => {
                    &&& metadata.width == Some(w)
                    &&& metadata.height == Some(h)
                    &&& metadata.resolution matches Some(text) && text@ == decimal_text(w as nat)
                        + "x"@ + decimal_text(h as nat)
                },
                None => metadata.width is None && metadata.height is None
                    && metadata.resolution is None,
            }
        },
        None => {
            &&& metadata.video_codec is None
            &&& metadata.pixel_format is None
            &&& metadata.color_space is None
            &&& metadata.color_range is None
            &&& metadata.color_primaries is None
            &&& metadata.profile is None
            &&& metadata.frame_rate is None
            &&& metadata.width is None
            &&& metadata.height is None
            &&& metadata.resolution is None
        },
    }
    &&& metadata.audio_tracks@.len() == audio.len()
    &&& forall|k: int|
        0 <= k < audio.len() ==> describes_audio(#[trigger] metadata.audio_tracks@[k], audio[k])
    &&& metadata.subtitle_tracks@.len() == subtitles.len()
    &&& forall|k: int|
        0 <= k < subtitles.len() ==> describes_subtitle(
            #[trigger] metadata.subtitle_tracks@[k],
            subtitles[k],
        )
    &&& match metadata.audio_codec {
        Some(codec) => audio.len() > 0 && codec@ == stream_codec(audio[0]),
        None => audio.len() == 0,
    }
    &&& metadata.video_bitrate_kbps == video_bitrate(
        video,
        probe.format.bit_rate,
        metadata.audio_tracks@,
    )
}

fn title_of(stream: &FfprobeStream) -> (title: Option<String>)
    ensures
        title == stream_title(*stream),
{
    match &stream.tags {
        Some(tags) => clone_text(&tags.title),
        None => None,
    }
}

fn language_of(stream: &FfprobeStream) -> (language: Option<String>)
    ensures
        language == stream_language(*stream),
{
    match &stream.tags {
        Some(tags) => clone_text(&tags.language),
        None => None,
    }
}

fn codec_of(stream: &FfprobeStream) -> (codec: String)
    ensures
        codec@ == stream_codec(*stream),
{
    match &stream.codec_name {
        Some(name) => name.clone(),
        None => String::from_str("unknown"),
    }
}

fn bitrate_of(stream: &FfprobeStream) -> (rate: Option<u64>)
    ensures
        rate == stream_bitrate(*stream),
{
    match &stream.bit_rate {
        Some(text) => parse_probe_bitrate(Some(text.as_str())),
        None => None,
    }
}

fn audio_track_of(stream: &FfprobeStream) -> (track: AudioTrack)
    ensures
        describes_audio(track, *stream),
{
    AudioTrack {
        index: stream.index,
        codec: codec_of(stream),
        channels: match stream.channels {
            Some(n) => integer_string(n as i64),
            None => String::from_str("?"),
        },
        language: language_of(stream),
        label: title_of(stream),
        bitrate_kbps: bitrate_of(stream),
        sample_rate: clone_text(&stream.sample_rate),
    }
}

fn subtitle_track_of(stream: &FfprobeStream) -> (track: SubtitleTrack)
    ensures
        describes_subtitle(track, *stream),
{
    SubtitleTrack {
        index: stream.index,
        codec: codec_of(stream),
        language: language_of(stream),
        label: title_of(stream),
    }
}

fn find_video(streams: &Vec<FfprobeStream>) -> (at: Option<usize>)
    ensures
        match at {
            Some(i) => i < streams@.len() && video_stream(streams@) == Some(streams@[i as int]),
            None => video_stream(streams@) is None,
        },
{
    let mut i: usize = 0;
    assert(streams@.subrange(0, 0) =~= Seq::<FfprobeStream>::empty());
    while i < streams.len()
        invariant
            i <= streams@.len(),
            streams_of(streams@.subrange(0, i as int), "video"@).len() == 0,
        decreases streams@.len() - i,
    {
        proof {
            let upto = streams@.subrange(0, i + 1);
            assert(upto.drop_last() =~= streams@.subrange(0, i as int));
            assert(upto.last() == streams@[i as int]);
        }
        if str_eq(streams[i].codec_type.as_str(), "video") {
            proof {
                let upto = streams@.subrange(0, i + 1);
                lemma_streams_of_prefix(streams@, "video"@, i + 1);
                assert(streams_of(upto, "video"@) =~= seq![streams@[i as int]]);
                assert(streams_of(upto, "video"@)[0] == streams@[i as int]);
            }
            return Some(i);
        }
        i += 1;
    }
    assert(streams@.subrange(0, streams@.len() as int) =~= streams@);
    None
}

/// The streams of one kind among the first `n` streams come first among
/// those of all the streams.
pub proof fn lemma_streams_of_prefix(streams: Seq<FfprobeStream>, kind: Seq<char>, n: int)
    requires
        0 <= n <= streams.len(),
    ensures
        streams_of(streams.subrange(0, n), kind).len() <= streams_of(streams, kind).len(),
        forall|k: int|
            0 <= k < streams_of(streams.subrange(0, n), kind).len() ==> streams_of(streams, kind)[k]
                == #[trigger] streams_of(streams.subrange(0, n), kind)[k],
    decreases streams.len() - n,
{
    if n == streams.len() {
        assert(streams.subrange(0, n) =~= streams);
    } else {
        lemma_streams_of_prefix(streams.drop_last(), kind, n);
        assert(streams.drop_last().subrange(0, n) =~= streams.subrange(0, n));
    }
}

fn sum_audio_bitrates(tracks: &Vec<AudioTrack>) -> (sum: u128)
    ensures
        sum == audio_bitrate_sum(tracks@),
{
    let mut sum: u128 = 0;
    let mut i: usize = 0;
    assert(tracks@.subrange(0, 0) =~= Seq::<AudioTrack>::empty());
    while i < tracks.len()
        invariant
            i <= tracks@.len(),
            sum == audio_bitrate_sum(tracks@.subrange(0, i as int)),
            sum <= i * 0xFFFF_FFFF_FFFF_FFFF,
        decreases tracks@.len() - i,
    {
        proof {
            let upto = tracks@.subrange(0, i + 1);
            assert(upto.drop_last() =~= tracks@.subrange(0, i as int));
            assert(upto.last() == tracks@[i as int]);
        }
        let rate: u64 = match tracks[i].bitrate_kbps {
            Some(rate) => rate,
            None => 0,
        };
        assert(i * 0xFFFF_FFFF_FFFF_FFFF + 0xFFFF_FFFF_FFFF_FFFF <= 0xFFFF_FFFF_FFFF_FFFF
            * 0xFFFF_FFFF_FFFF_FFFF + 0xFFFF_FFFF_FFFF_FFFF) by (nonlinear_arith)
            requires
                0 <= i <= 0xFFFF_FFFF_FFFF_FFFF,
        ;
        sum = sum + rate as u128;
        i += 1;
    }
    assert(tracks@.subrange(0, tracks@.len() as int) =~= tracks@);
    sum
}

/// What the prober's report comes to: the container's duration, bit rate
/// and tags; codec, colours, size and rates of the first video stream; one
/// track for each audio and each subtitle stream.
pub fn summarise_probe(probe: FfprobeOutput) -> (metadata: ProbeMetadata)
    ensures
        summarises(metadata, probe),
{
    let mut metadata = ProbeMetadata {
        duration: clone_text(&probe.format.duration),
        bitrate: clone_text(&probe.format.bit_rate),
        video_codec: None,
        audio_codec: None,
        resolution: None,
        frame_rate: None,
        width: None,
        height: None,
        video_bitrate_kbps: None,
        audio_tracks: Vec::new(),
        subtitle_tracks: Vec::new(),
        tags: None,
        pixel_format: None,
        color_space: None,
        color_range: None,
        color_primaries: None,
        profile: None,
    };
    let video_at = find_video(&probe.streams);
    let mut stated: Option<u64> = None;
    match video_at {
        Some(i) => {
            let stream = &probe.streams[i];
            metadata.video_codec = clone_text(&stream.codec_name);
            metadata.pixel_format = clone_text(&stream.pix_fmt);
            metadata.color_space = clone_text(&stream.color_space);
            metadata.color_range = clone_text(&stream.color_range);
            metadata.color_primaries = clone_text(&stream.color_primaries);
            metadata.profile = clone_text(&stream.profile);
            match (stream.width, stream.height) {
                (Some(w), Some(h)) => {
                    if w > 0 && h > 0 {
                        metadata.width = Some(w as u32);
                        metadata.height = Some(h as u32);
                        let mut text = String::new();
                        push_decimal(&mut text, w as u64);
                        text.append("x");
                        push_decimal(&mut text, h as u64);
                        assert(text@ =~= decimal_text(w as nat) + "x"@ + decimal_text(h as nat));
                        metadata.resolution = Some(text);
                    }
                },
                _ => {},
            }
            metadata.frame_rate = match &stream.avg_frame_rate {
                Some(text) => parse_frame_rate_string(Some(text.as_str())),
                None => None,
            };
            stated = bitrate_of(stream);
        },
        None => {},
    }
    let mut audio_tracks: Vec<AudioTrack> = Vec::new();
    let mut subtitle_tracks: Vec<SubtitleTrack> = Vec::new();
    let mut i: usize = 0;
    let ghost streams = probe.streams@;
    assert(streams.subrange(0, 0) =~= Seq::<FfprobeStream>::empty());
    while i < probe.streams.len()
        invariant
            i <= streams.len(),
            streams == probe.streams@,
            audio_tracks@.len() == streams_of(streams.subrange(0, i as int), "audio"@).len(),
            forall|k: int|
                0 <= k < audio_tracks@.len() ==> describes_audio(
                    #[trigger] audio_tracks@[k],
                    streams_of(streams.subrange(0, i as int), "audio"@)[k],
                ),
            subtitle_tracks@.len() == streams_of(streams.subrange(0, i as int), "subtitle"@).len(),
            forall|k: int|
                0 <= k < subtitle_tracks@.len() ==> describes_subtitle(
                    #[trigger] subtitle_tracks@[k],
                    streams_of(streams.subrange(0, i as int), "subtitle"@)[k],
                ),
        decreases streams.len() - i,
    {
        proof {
            let upto = streams.subrange(0, i + 1);
            assert(upto.drop_last() =~= streams.subrange(0, i as int));
            assert(upto.last() == streams[i as int]);
        }
        let stream = &probe.streams[i];
        if str_eq(stream.codec_type.as_str(), "audio") {
            audio_tracks.push(audio_track_of(stream));
        }
        if str_eq(stream.codec_type.as_str(), "subtitle") {
            subtitle_tracks.push(subtitle_track_of(stream));
        }
        proof {
            reveal_strlit("audio");
            reveal_strlit("subtitle");
            assert("audio"@.len() != "subtitle"@.len());
        }
        i += 1;
    }
    assert(streams.subrange(0, streams.len() as int) =~= streams);
    if audio_tracks.len() > 0 {
        metadata.audio_codec = Some(audio_tracks[0].codec.clone());
    }
    metadata.video_bitrate_kbps = match stated {
        Some(rate) => Some(rate),
        None => {
            let whole = match &metadata.bitrate {
                Some(text) => parse_probe_bitrate(Some(text.as_str())),
                None => None,
            };
            match whole {
                Some(rate) => {
                    let audio_sum = sum_audio_bitrates(&audio_tracks);
                    if rate as u128 > audio_sum {
                        Some((rate as u128 - audio_sum) as u64)
                    } else {
                        None
                    }
                },
                None => None,
            }
        },
    };
    metadata.audio_tracks = audio_tracks;
    metadata.subtitle_tracks = subtitle_tracks;
    metadata.tags = probe.format.tags;
    metadata
}

} // verus!

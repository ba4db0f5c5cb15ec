//! Rules of the direct decoder backend: which stream of an MP4 file is played,
//! which decoder is taken, and what the decoder's answers mean.

use crate::text::{
    decimal, hexadecimal, hexadecimal_notation_is_read_back, push_decimal, push_hexadecimal,
};
use vstd::prelude::*;
use vstd::string::*;

verus! {

/// Media type: video.
pub const MAJOR_TYPE_VIDEO: u128 = 0x73646976_0000_0010_8000_00aa00389b71;

/// Video subtype: H.264.
pub const SUBTYPE_H264: u128 = 0x34363248_0000_0010_8000_00aa00389b71;

/// Video subtype: HEVC.
pub const SUBTYPE_HEVC: u128 = 0x43564548_0000_0010_8000_00aa00389b71;

/// Video subtype: NV12.
pub const SUBTYPE_NV12: u128 = 0x3231564e_0000_0010_8000_00aa00389b71;

/// Source event: there is a new stream.
pub const EVENT_NEW_STREAM: u32 = 205;

/// Stream event: the stream has started.
pub const EVENT_STREAM_STARTED: u32 = 202;

/// Stream event: a sample is there.
pub const EVENT_MEDIA_SAMPLE: u32 = 213;

/// Decoder status: no input is taken now.
pub const STATUS_NOT_ACCEPTING: i32 = -1072875851;

/// Decoder status: there is no output without more input.
pub const STATUS_NEED_MORE_INPUT: i32 = -1072861838;

/// Decoder status: the output type has changed.
pub const STATUS_STREAM_CHANGE: i32 = -1072861855;

/// Output stream flag: the decoder brings its own samples.
pub const OUTPUT_PROVIDES_SAMPLES: u32 = 256;

/// How many output types of a decoder are looked at.
pub const MAX_OUTPUT_TYPES: usize = 32;

/// How often one pull of output copes with a changed output type.
pub const MAX_OUTPUT_ATTEMPTS: u32 = 2;

/// A codec that the direct backend decodes.
#[derive(Clone, Copy, Debug, PartialEq, Eq, Structural)]
pub enum DirectCodec {
    H264,
    Hevc,
}

/// What a bounded demuxing session saw.
#[derive(Clone, Copy, Debug, PartialEq, Eq, Structural)]
pub struct DirectMp4EventStats {
    pub source_events: u32,
    pub stream_events: u32,
    pub samples: u32,
    pub stream_started: bool,
}

impl Default for DirectMp4EventStats {
    fn default() -> (stats: Self)
        ensures
            stats == (DirectMp4EventStats {
                source_events: 0,
                stream_events: 0,
                samples: 0,
                stream_started: false,
            }),
    {
        DirectMp4EventStats {
            source_events: 0,
            stream_events: 0,
            samples: 0,
            stream_started: false,
        }
    }
}

/// What is read of one stream of an MP4 file.
pub enum StreamReading {
    /// Its descriptor could not be read.
    Unreadable(String),
    /// It has no descriptor.
    Missing,
    /// Its media type could not be read.
    Untyped(String),
    /// Its media type, as far as it is given.
    Typed { major: Option<u128>, subtype: Option<u128> },
}

/// Whether a stream is known to be video.
pub open spec fn video_stream(stream: StreamReading) -> bool {
    stream matches StreamReading::Typed { major: Some(major), .. } && major == MAJOR_TYPE_VIDEO
}

/// Whether the search for the video stream ends at a stream: there it is, or
/// it cannot be told.
pub open spec fn decisive(stream: StreamReading) -> bool {
    stream is Unreadable || stream is Untyped || video_stream(stream)
}

/// Whether the search for the video stream ends at stream `i`.
pub open spec fn search_ends_at(streams: Seq<StreamReading>, i: int) -> bool {
    &&& 0 <= i < streams.len()
    &&& decisive(streams[i])
    &&& forall|j: int| 0 <= j < i ==> !decisive(#[trigger] streams[j])
}

/// Whether the search for the video stream finds nothing.
pub open spec fn search_fails(streams: Seq<StreamReading>) -> bool {
    forall|j: int| 0 <= j < streams.len() ==> !decisive(#[trigger] streams[j])
}

fn is_video_type(major: &Option<u128>) -> (video: bool)
    ensures
        video == (*major == Some(MAJOR_TYPE_VIDEO)),
{
    match major {
        Some(major) => *major == MAJOR_TYPE_VIDEO,
        None => false,
    }
}

fn is_decisive(stream: &StreamReading) -> (ends: bool)
    ensures
        ends == decisive(*stream),
{
    match stream {
        StreamReading::Unreadable(_) => true,
        StreamReading::Missing => false,
        StreamReading::Untyped(_) => true,
        StreamReading::Typed { major, .. } => is_video_type(major),
    }
}

fn find_video(streams: &Vec<StreamReading>) -> (found: Option<usize>)
    ensures
        match found {
            Some(i) => search_ends_at(streams@, i as int),
            None => search_fails(streams@),
        },
{
    let mut i: usize = 0;
    while i < streams.len()
        invariant
            i <= streams@.len(),
            forall|j: int| 0 <= j < i ==> !decisive(#[trigger] streams@[j]),
        decreases streams@.len() - i,
    {
        if is_decisive(&streams[i]) {
            return Some(i);
        }
        i = i + 1;
    }
    None
}

proof fn lemma_search_end_unique(streams: Seq<StreamReading>, i: int, k: int)
    requires
        search_ends_at(streams, i),
        search_ends_at(streams, k),
    ensures
        i == k,
{
    if i < k {
        assert(!decisive(streams[i]));
    }
    if k < i {
        assert(!decisive(streams[k]));
    }
}

/// The text of an identifier in its usual notation.
pub open spec fn identifier_text(id: nat) -> Seq<char> {
    hexadecimal(id / 0x1_0000_0000_0000_0000_0000_0000, 8) + "-"@ + hexadecimal(
        id / 0x1_0000_0000_0000_0000_0000,
        4,
    ) + "-"@ + hexadecimal(id / 0x1_0000_0000_0000_0000, 4) + "-"@ + hexadecimal(
        id / 0x1_0000_0000_0000,
        4,
    ) + "-"@ + hexadecimal(id, 12)
}

/// Appends an identifier in its usual notation.
pub fn push_identifier(text: &mut String, id: u128)
    ensures
        final(text)@ == old(text)@ + identifier_text(id as nat),
{
    push_hexadecimal(text, id / 0x1_0000_0000_0000_0000_0000_0000, 8);
    text.append("-");
    push_hexadecimal(text, id / 0x1_0000_0000_0000_0000_0000, 4);
    text.append("-");
    push_hexadecimal(text, id / 0x1_0000_0000_0000_0000, 4);
    text.append("-");
    push_hexadecimal(text, id / 0x1_0000_0000_0000, 4);
    text.append("-");
    push_hexadecimal(text, id, 12);
    assert(text@ =~= old(text)@ + identifier_text(id as nat));
}

/// How an unreadable stream is reported.
pub open spec fn stream_error(index: int, error: Seq<char>) -> Seq<char> {
    "MP4 stream "@ + decimal(index as nat) + ": "@ + error
}

fn describe_stream_error(index: usize, error: &str) -> (text: String)
    ensures
        text@ == stream_error(index as int, error@),
{
    let mut text = String::from_str("MP4 stream ");
    push_decimal(&mut text, index as u64);
    text.append(": ");
    text.append(error);
    text
}

fn describe_type_error(error: &str) -> (text: String)
    ensures
        text@ == "MP4 stream type: "@ + error@,
{
    let mut text = String::from_str("MP4 stream type: ");
    text.append(error);
    text
}

/// The errors that every search for the video stream has in common: an
/// unreadable stream or type before any video, and no video at all.
pub open spec fn search_error(streams: Seq<StreamReading>, error: Seq<char>) -> bool {
    ||| search_fails(streams) && error == "MP4 has no video stream."@
    ||| exists|i: int| #[trigger]
        search_ends_at(streams, i) && (match streams[i] {
            StreamReading::Unreadable(reason) => error == stream_error(i, reason@),
            StreamReading::Untyped(reason) => error == "MP4 stream type: "@ + reason@,
            StreamReading::Typed { subtype: None, .. } => error
                == "MP4 video stream has no subtype."@,
            _ => false,
        })
}

/// Whether the search finds a video stream with a subtype.
pub open spec fn finds_video(streams: Seq<StreamReading>, i: int, subtype: u128) -> bool {
    &&& search_ends_at(streams, i)
    &&& streams[i] matches StreamReading::Typed { subtype: Some(found), .. } && found == subtype
}

fn search_video(streams: &Vec<StreamReading>) -> (found: Result<(usize, u128), String>)
    ensures
        match found {
            Ok((i, subtype)) => finds_video(streams@, i as int, subtype),
            Err(error) => search_error(streams@, error@),
        },
{
    match find_video(streams) {
        None => Err(String::from_str("MP4 has no video stream.")),
        Some(i) => match &streams[i] {
            StreamReading::Unreadable(error) => Err(describe_stream_error(i, error.as_str())),
            StreamReading::Untyped(error) => Err(describe_type_error(error.as_str())),
            StreamReading::Missing => Err(String::from_str("MP4 has no video stream.")),
            StreamReading::Typed { subtype, .. } => match subtype {
                Some(subtype) => Ok((i, *subtype)),
                None => Err(String::from_str("MP4 video stream has no subtype.")),
            },
        },
    }
}

/// Tells the codec of an MP4 file by its first video stream.
pub fn probe_mp4_demuxer(streams: &Vec<StreamReading>) -> (codec: Result<DirectCodec, String>)
    ensures
        forall|i: int, subtype: u128| #[trigger]
            finds_video(streams@, i, subtype) ==> (if subtype == SUBTYPE_H264 {
                codec == Ok::<DirectCodec, String>(DirectCodec::H264)
            } else if subtype == SUBTYPE_HEVC {
                codec == Ok::<DirectCodec, String>(DirectCodec::Hevc)
            } else {
                codec matches Err(error) && error@ == "Unsupported MP4 video subtype "@
                    + identifier_text(subtype as nat) + "."@
            }),
        (forall|i: int, subtype: u128| !#[trigger] finds_video(streams@, i, subtype)) ==> (
        codec matches Err(error) && search_error(streams@, error@)),
{
    match search_video(streams) {
        Err(error) => {
            proof {
                lemma_no_video_on_error(streams@, error@);
            }
            Err(error)
        },
        Ok((i, subtype)) => {
            proof {
                lemma_video_unique(streams@, i as int, subtype);
            }
            if subtype == SUBTYPE_H264 {
                Ok(DirectCodec::H264)
            } else if subtype == SUBTYPE_HEVC {
                Ok(DirectCodec::Hevc)
            } else {
                let mut error = String::from_str("Unsupported MP4 video subtype ");
                push_identifier(&mut error, subtype);
                error.append(".");
                Err(error)
            }
        },
    }
}

proof fn lemma_no_video_on_error(streams: Seq<StreamReading>, error: Seq<char>)
    requires
        search_error(streams, error),
    ensures
        forall|i: int, subtype: u128| !#[trigger] finds_video(streams, i, subtype),
{
    assert forall|i: int, subtype: u128| !#[trigger] finds_video(streams, i, subtype) by {
        if finds_video(streams, i, subtype) {
            if search_fails(streams) {
                assert(!decisive(streams[i]));
            } else {
                let k = choose|k: int| #[trigger]
                    search_ends_at(streams, k) && (match streams[k] {
                        StreamReading::Unreadable(reason) => error == stream_error(k, reason@),
                        StreamReading::Untyped(reason) => error == "MP4 stream type: "@ + reason@,
                        StreamReading::Typed { subtype: None, .. } => error
                            == "MP4 video stream has no subtype."@,
                        _ => false,
                    });
                lemma_search_end_unique(streams, i, k);
            }
        }
    }
}

proof fn lemma_video_unique(streams: Seq<StreamReading>, i: int, subtype: u128)
    requires
        finds_video(streams, i, subtype),
    ensures
        forall|k: int, other: u128| #[trigger]
            finds_video(streams, k, other) ==> k == i && other == subtype,
{
    assert forall|k: int, other: u128| #[trigger] finds_video(streams, k, other) implies k == i
        && other == subtype by {
        lemma_search_end_unique(streams, i, k);
    }
}

/// Whether the direct backend decodes a subtype.
pub open spec fn decodable(subtype: u128) -> bool {
    subtype == SUBTYPE_H264 || subtype == SUBTYPE_HEVC
}

/// The stream, and its subtype, whose media type a hardware decoder is offered.
/// A file of another codec is offered to none.
pub fn can_configure_hardware_decoder_for_mp4(streams: &Vec<StreamReading>) -> (offer: Result<
    Option<(usize, u128)>,
    String,
>)
    ensures
        forall|i: int, subtype: u128| #[trigger]
            finds_video(streams@, i, subtype) ==> offer == Ok::<Option<(usize, u128)>, String>(
                if decodable(subtype) {
                    Some((i as usize, subtype))
                } else {
                    None
                },
            ),
        (forall|i: int, subtype: u128| !#[trigger] finds_video(streams@, i, subtype))
            && !search_fails(streams@) ==> (offer matches Err(error) && search_error(
            streams@,
            error@,
        )),
        search_fails(streams@) ==> offer == Ok::<Option<(usize, u128)>, String>(None),
{
    if find_video(streams).is_none() {
        proof {
            lemma_no_video_on_error(streams@, "MP4 has no video stream."@);
        }
        return Ok(None);
    }
    match search_video(streams) {
        Err(error) => {
            proof {
                lemma_no_video_on_error(streams@, error@);
                lemma_search_exclusive(streams@);
            }
            Err(error)
        },
        Ok((i, subtype)) => {
            proof {
                lemma_video_unique(streams@, i as int, subtype);
                lemma_search_exclusive(streams@);
            }
            if subtype == SUBTYPE_H264 || subtype == SUBTYPE_HEVC {
                Ok(Some((i, subtype)))
            } else {
                Ok(None)
            }
        },
    }
}

proof fn lemma_search_exclusive(streams: Seq<StreamReading>)
    ensures
        forall|i: int| #[trigger] search_ends_at(streams, i) ==> !search_fails(streams),
{
    assert forall|i: int| #[trigger] search_ends_at(streams, i) implies !search_fails(streams) by {
        if search_fails(streams) {
            assert(!decisive(streams[i]));
        }
    }
}

/// The stream, and its subtype, that a decoder session is made for.
pub fn create_gpu_decoder_session_for_mp4(streams: &Vec<StreamReading>) -> (chosen: Result<
    (usize, u128),
    String,
>)
    ensures
        forall|i: int, subtype: u128| #[trigger]
            finds_video(streams@, i, subtype) ==> (if decodable(subtype) {
                chosen == Ok::<(usize, u128), String>((i as usize, subtype))
            } else {
                chosen matches Err(error) && error@ == "MP4 video codec is not H.264 or HEVC."@
            }),
        (forall|i: int, subtype: u128| !#[trigger] finds_video(streams@, i, subtype)) ==> (
        chosen matches Err(error) && search_error(streams@, error@)),
{
    match search_video(streams) {
        Err(error) => {
            proof {
                lemma_no_video_on_error(streams@, error@);
            }
            Err(error)
        },
        Ok((i, subtype)) => {
            proof {
                lemma_video_unique(streams@, i as int, subtype);
            }
            if subtype == SUBTYPE_H264 || subtype == SUBTYPE_HEVC {
                Ok((i, subtype))
            } else {
                Err(String::from_str("MP4 video codec is not H.264 or HEVC."))
            }
        },
    }
}

/// Which streams to select and which to deselect, in order, and how it ends.
pub struct StreamSelection {
    pub select: Vec<bool>,
    pub result: Result<(), String>,
}

/// Whether stream `i` is the first one known to be video.
pub open spec fn first_video(streams: Seq<Result<bool, String>>, i: int) -> bool {
    &&& 0 <= i < streams.len()
    &&& streams[i] == Ok::<bool, String>(true)
    &&& forall|j: int| 0 <= j < i ==> #[trigger] streams[j] != Ok::<bool, String>(true)
}

/// Selects the first video stream and deselects every other stream. Of each
/// stream it is known whether it is video, or why its descriptor could not be
/// read; there the selection ends.
pub fn select_only_video_stream(streams: &Vec<Result<bool, String>>) -> (selection: StreamSelection)
    ensures
        selection.select@.len() <= streams@.len(),
        forall|i: int| #![trigger streams@[i]]
            0 <= i < selection.select@.len() ==> streams@[i] is Ok,
        forall|i: int| #![trigger selection.select@[i]]
            0 <= i < selection.select@.len() ==> selection.select@[i] == first_video(streams@, i),
        selection.select@.len() < streams@.len() ==> (streams@[selection.select@.len() as int]
            matches Err(reason) && selection.result matches Err(error) && error@ == stream_error(
            selection.select@.len() as int,
            reason@,
        )),
        selection.select@.len() == streams@.len() ==> match selection.result {
            Ok(()) => exists|i: int| first_video(streams@, i),
            Err(error) => error@ == "MP4 has no video stream."@ && forall|i: int|
                !first_video(streams@, i),
        },
{
    let mut select: Vec<bool> = Vec::new();
    let mut video_found: bool = false;
    let mut i: usize = 0;
    let ghost mut found: int = -1;
    while i < streams.len()
        invariant
            i <= streams@.len(),
            select@.len() == i,
            forall|j: int| #![trigger streams@[j]] 0 <= j < i ==> streams@[j] is Ok,
            forall|j: int| #![trigger select@[j]]
                0 <= j < i ==> select@[j] == first_video(streams@, j),
            video_found ==> 0 <= found < i && first_video(streams@, found),
            !video_found ==> forall|j: int|
                0 <= j < i ==> #[trigger] streams@[j] != Ok::<bool, String>(true),
        decreases streams@.len() - i,
    {
        match &streams[i] {
            Err(error) => {
                let error = describe_stream_error(i, error.as_str());
                return StreamSelection { select, result: Err(error) };
            },
            Ok(is_video) => {
                let chosen: bool = *is_video && !video_found;
                proof {
                    if video_found {
                        assert(streams@[found] == Ok::<bool, String>(true));
                        assert(!first_video(streams@, i as int));
                    }
                    if chosen {
                        found = i as int;
                        assert(first_video(streams@, i as int));
                    }
                }
                select.push(chosen);
                if chosen {
                    video_found = true;
                }
            },
        }
        i = i + 1;
    }
    if video_found {
        StreamSelection { select, result: Ok(()) }
    } else {
        StreamSelection { select, result: Err(String::from_str("MP4 has no video stream.")) }
    }
}

/// The index of the NV12 output type that a decoder offers: the first one
/// among those that are looked at. Types are given by their subtypes.
pub fn select_current_nv12_output_type(subtypes: &Vec<Option<u128>>) -> (chosen: Option<usize>)
    ensures
        match chosen {
            Some(i) => {
                &&& i < subtypes@.len()
                &&& i < MAX_OUTPUT_TYPES
                &&& subtypes@[i as int] == Some(SUBTYPE_NV12)
                &&& forall|j: int| 0 <= j < i ==> #[trigger] subtypes@[j] != Some(SUBTYPE_NV12)
            },
            None => forall|j: int|
                0 <= j < subtypes@.len() && j < MAX_OUTPUT_TYPES ==> #[trigger] subtypes@[j]
                    != Some(SUBTYPE_NV12),
        },
{
    let mut i: usize = 0;
    while i < subtypes.len() && i < MAX_OUTPUT_TYPES
        invariant
            i <= subtypes@.len(),
            forall|j: int| 0 <= j < i ==> #[trigger] subtypes@[j] != Some(SUBTYPE_NV12),
        decreases subtypes@.len() - i,
    {
        if let Some(subtype) = subtypes[i] {
            if subtype == SUBTYPE_NV12 {
                return Some(i);
            }
        }
        i = i + 1;
    }
    None
}

/// The next thing to do with a decoder that is tried.
#[derive(Clone, Copy, Debug, PartialEq, Eq, Structural)]
pub enum DecoderStep {
    /// Read the decoder's attributes.
    ReadAttributes,
    /// Unlock an asynchronous decoder.
    UnlockEvents,
    /// Bind the decoder to the graphics device.
    BindDevice,
    /// Offer the compressed media type.
    SetInput,
    /// List the subtypes of the output types.
    ListOutputs,
    /// Set the output type of this index.
    SetOutput(usize),
    /// Announce that streaming begins.
    BeginStreaming,
    /// Announce the start of the stream.
    StartStream,
    /// The decoder is taken.
    Accepted,
    /// The decoder is shut down, and the next one tried.
    Rejected,
}

/// How the last thing went.
pub enum DecoderAnswer {
    /// It failed.
    Failed,
    /// It worked.
    Done,
    /// The attributes; one that is missing counts as zero.
    Attributes { device_aware: u32, asynchronous: u32 },
    /// The subtypes of the output types.
    Outputs(Vec<Option<u128>>),
}

/// Goes on with a decoder that is tried. Only one that works on the graphics
/// device, takes the media type and gives NV12 is taken; at the first failure
/// it is turned down.
pub fn activate_gpu_decoder(step: DecoderStep, answer: DecoderAnswer) -> (next: DecoderStep)
    ensures
        match (step, answer) {
            (
                DecoderStep::ReadAttributes,
                DecoderAnswer::Attributes { device_aware, asynchronous },
            ) => next == (if device_aware == 0 {
                DecoderStep::Rejected
            } else if asynchronous != 0 {
                DecoderStep::UnlockEvents
            } else {
                DecoderStep::BindDevice
            }),
            (DecoderStep::UnlockEvents, DecoderAnswer::Done) => next == DecoderStep::BindDevice,
            (DecoderStep::BindDevice, DecoderAnswer::Done) => next == DecoderStep::SetInput,
            (DecoderStep::SetInput, DecoderAnswer::Done) => next == DecoderStep::ListOutputs,
            (DecoderStep::ListOutputs, DecoderAnswer::Outputs(subtypes)) => match next {
                DecoderStep::SetOutput(i) => {
                    &&& i < subtypes@.len() && i < MAX_OUTPUT_TYPES
                    &&& subtypes@[i as int] == Some(SUBTYPE_NV12)
                    &&& forall|j: int| 0 <= j < i ==> #[trigger] subtypes@[j] != Some(SUBTYPE_NV12)
                },
                _ => next == DecoderStep::Rejected && forall|j: int|
                    0 <= j < subtypes@.len() && j < MAX_OUTPUT_TYPES ==> #[trigger] subtypes@[j]
                        != Some(SUBTYPE_NV12),
            },
            (DecoderStep::SetOutput(_), DecoderAnswer::Done) => next == DecoderStep::BeginStreaming,
            (DecoderStep::BeginStreaming, DecoderAnswer::Done) => next == DecoderStep::StartStream,
            (DecoderStep::StartStream, DecoderAnswer::Done) => next == DecoderStep::Accepted,
            (DecoderStep::Accepted, _) => next == DecoderStep::Accepted,
            _ => next == DecoderStep::Rejected,
        },
{
    match (step, answer) {
        (
            DecoderStep::ReadAttributes,
            DecoderAnswer::Attributes { device_aware, asynchronous },
        ) => {
            if device_aware == 0 {
                DecoderStep::Rejected
            } else if asynchronous != 0 {
                DecoderStep::UnlockEvents
            } else {
                DecoderStep::BindDevice
            }
        },
        (DecoderStep::UnlockEvents, DecoderAnswer::Done) => DecoderStep::BindDevice,
        (DecoderStep::BindDevice, DecoderAnswer::Done) => DecoderStep::SetInput,
        (DecoderStep::SetInput, DecoderAnswer::Done) => DecoderStep::ListOutputs,
        (DecoderStep::ListOutputs, DecoderAnswer::Outputs(subtypes)) => {
            match select_current_nv12_output_type(&subtypes) {
                Some(i) => DecoderStep::SetOutput(i),
                None => DecoderStep::Rejected,
            }
        },
        (DecoderStep::SetOutput(_), DecoderAnswer::Done) => DecoderStep::BeginStreaming,
        (DecoderStep::BeginStreaming, DecoderAnswer::Done) => DecoderStep::StartStream,
        (DecoderStep::StartStream, DecoderAnswer::Done) => DecoderStep::Accepted,
        (DecoderStep::Accepted, _) => DecoderStep::Accepted,
        _ => DecoderStep::Rejected,
    }
}

/// Which decoders are listed: all kinds, and the best first.
pub const DECODER_LIST_FLAGS: i32 = 127;

/// Whether one of the listed decoders works on the graphics device. Each is
/// given by its attribute, as far as it has one.
pub fn has_decoder_for_subtype(device_aware: &Vec<Option<u32>>) -> (supported: bool)
    ensures
        supported == exists|i: int|
            0 <= i < device_aware@.len() && works_on_device(#[trigger] device_aware@[i]),
{
    let mut i: usize = 0;
    while i < device_aware.len()
        invariant
            i <= device_aware@.len(),
            forall|j: int| 0 <= j < i ==> !works_on_device(#[trigger] device_aware@[j]),
        decreases device_aware@.len() - i,
    {
        if let Some(aware) = device_aware[i] {
            if aware != 0 {
                assert(works_on_device(device_aware@[i as int]));
                return true;
            }
        }
        i = i + 1;
    }
    false
}

/// Whether a decoder works on the graphics device, by its attribute.
pub open spec fn works_on_device(device_aware: Option<u32>) -> bool {
    device_aware matches Some(aware) && aware != 0
}

/// Whether there is a decoder for H.264 or for HEVC that works on the graphics
/// device.
pub fn has_d3d11_hardware_decoder(h264: &Vec<Option<u32>>, hevc: &Vec<Option<u32>>) -> (available:
    bool)
    ensures
        available == ((exists|i: int| 0 <= i < h264@.len() && works_on_device(#[trigger] h264@[i]))
            || (exists|i: int| 0 <= i < hevc@.len() && works_on_device(#[trigger] hevc@[i]))),
{
    has_decoder_for_subtype(h264) || has_decoder_for_subtype(hevc)
}

/// How the search for a decoder that takes a media type goes on: the answer of
/// each decoder that was tried, of which there is none where it could not be
/// activated.
pub fn configure_decoder_input(answers: &Vec<Option<bool>>) -> (accepted: bool)
    ensures
        accepted == exists|i: int| 0 <= i < answers@.len() && #[trigger] answers@[i] == Some(true),
{
    let mut i: usize = 0;
    while i < answers.len()
        invariant
            i <= answers@.len(),
            forall|j: int| 0 <= j < i ==> #[trigger] answers@[j] != Some(true),
        decreases answers@.len() - i,
    {
        if let Some(accepted) = answers[i] {
            if accepted {
                assert(answers@[i as int] == Some(true));
                return true;
            }
        }
        i = i + 1;
    }
    false
}

/// What an event of the media source or of its stream asks for.
#[derive(Clone, Copy, Debug, PartialEq, Eq, Structural)]
pub enum DirectEvent {
    Ignore,
    /// The source has a stream: take it.
    OpenStream,
    /// The stream has started: samples can be requested.
    StreamStarted,
    /// A sample is there: take it.
    TakeSample,
}

/// What an event asks for. As long as no stream is open, events come from the
/// source; after that they come from the stream.
pub open spec fn event_meaning(stream_open: bool, kind: Option<u32>) -> DirectEvent {
    if !stream_open {
        if kind == Some(EVENT_NEW_STREAM) {
            DirectEvent::OpenStream
        } else {
            DirectEvent::Ignore
        }
    } else if kind == Some(EVENT_STREAM_STARTED) {
        DirectEvent::StreamStarted
    } else if kind == Some(EVENT_MEDIA_SAMPLE) {
        DirectEvent::TakeSample
    } else {
        DirectEvent::Ignore
    }
}

/// What an event asks for.
pub fn direct_event(stream_open: bool, kind: Option<u32>) -> (event: DirectEvent)
    ensures
        event == event_meaning(stream_open, kind),
{
    match kind {
        Some(kind) => {
            if !stream_open {
                if kind == EVENT_NEW_STREAM {
                    DirectEvent::OpenStream
                } else {
                    DirectEvent::Ignore
                }
            } else if kind == EVENT_STREAM_STARTED {
                DirectEvent::StreamStarted
            } else if kind == EVENT_MEDIA_SAMPLE {
                DirectEvent::TakeSample
            } else {
                DirectEvent::Ignore
            }
        },
        None => DirectEvent::Ignore,
    }
}

/// A bounded demuxing session that ends with the first sample.
pub struct EventLoopProbe {
    pub stats: DirectMp4EventStats,
    pub stream_open: bool,
}

impl EventLoopProbe {
    /// A session in which nothing has happened.
    pub fn new() -> (probe: Self)
        ensures
            probe == (EventLoopProbe {
                stats: DirectMp4EventStats {
                    source_events: 0,
                    stream_events: 0,
                    samples: 0,
                    stream_started: false,
                },
                stream_open: false,
            }),
    {
        EventLoopProbe { stats: DirectMp4EventStats::default(), stream_open: false }
    }

    /// Whether the session goes on: it does until a sample came or time is up.
    pub fn goes_on(&self, time_left: bool) -> (goes_on: bool)
        ensures
            goes_on == (time_left && self.stats.samples == 0),
    {
        time_left && self.stats.samples == 0
    }

    /// Counts an event and says what it asks for.
    pub fn event(&mut self, kind: Option<u32>) -> (event: DirectEvent)
        requires
            !old(self).stream_open ==> old(self).stats.source_events < u32::MAX,
            old(self).stream_open ==> old(self).stats.stream_events < u32::MAX,
        ensures
            event == event_meaning(old(self).stream_open, kind),
            *final(self) == (EventLoopProbe {
                stats: DirectMp4EventStats {
                    source_events: (old(self).stats.source_events + (if old(self).stream_open {
                        0int
                    } else {
                        1
                    })) as u32,
                    stream_events: (old(self).stats.stream_events + (if old(self).stream_open {
                        1int
                    } else {
                        0
                    })) as u32,
                    samples: old(self).stats.samples,
                    stream_started: old(self).stats.stream_started || event
                        == DirectEvent::StreamStarted,
                },
                stream_open: old(self).stream_open,
            }),
    {
        let event = direct_event(self.stream_open, kind);
        if self.stream_open {
            self.stats.stream_events = self.stats.stream_events + 1;
        } else {
            self.stats.source_events = self.stats.source_events + 1;
        }
        if event == DirectEvent::StreamStarted {
            self.stats.stream_started = true;
        }
        event
    }

    /// Records that the stream was taken.
    pub fn stream_opened(&mut self)
        ensures
            *final(self) == (EventLoopProbe { stream_open: true, ..*old(self) }),
    {
        self.stream_open = true;
    }

    /// Records that a sample was taken.
    pub fn sample_taken(&mut self)
        requires
            old(self).stats.samples < u32::MAX,
        ensures
            *final(self) == (EventLoopProbe {
                stats: DirectMp4EventStats {
                    samples: (old(self).stats.samples + 1) as u32,
                    ..old(self).stats
                },
                ..*old(self)
            }),
    {
        self.stats.samples = self.stats.samples + 1;
    }
}

/// A bounded read of the first sample.
#[derive(Clone, Copy, Debug, PartialEq, Eq, Structural)]
pub struct FirstSample {
    pub stream_open: bool,
    pub taken: bool,
}

impl FirstSample {
    /// The read after an event, and what the event asks for.
    pub open spec fn after(self, kind: Option<u32>) -> (FirstSample, DirectEvent) {
        let event = event_meaning(self.stream_open, kind);
        (
            FirstSample {
                stream_open: self.stream_open || event == DirectEvent::OpenStream,
                taken: self.taken || event == DirectEvent::TakeSample,
            },
            event,
        )
    }

    /// A read in which nothing has happened.
    pub fn new() -> (read: Self)
        ensures
            read == (FirstSample { stream_open: false, taken: false }),
    {
        FirstSample { stream_open: false, taken: false }
    }

    /// Whether the read goes on: it does until a sample came or time is up.
    pub fn goes_on(&self, time_left: bool) -> (goes_on: bool)
        ensures
            goes_on == (time_left && !self.taken),
    {
        time_left && !self.taken
    }

    /// Goes on after an event: the stream is opened when the source has it, a
    /// sample is requested when the stream has started, and the first sample is
    /// taken.
    pub fn step(&mut self, kind: Option<u32>) -> (event: DirectEvent)
        ensures
            (*final(self), event) == old(self).after(kind),
    {
        let event = direct_event(self.stream_open, kind);
        if event == DirectEvent::OpenStream {
            self.stream_open = true;
        }
        if event == DirectEvent::TakeSample {
            self.taken = true;
        }
        event
    }
}

/// A read takes a sample only from a stream that was opened, and at most one:
/// it ends with the sample.
pub proof fn the_first_sample_ends_the_read(read: FirstSample, kind: Option<u32>)
    requires
        read.after(kind).1 == DirectEvent::TakeSample,
    ensures
        read.stream_open,
        read.after(kind).0.taken,
{
}

/// The sample that a bounded read gave.
pub fn read_first_direct_video_sample<S>(sample: Option<S>) -> (result: Result<S, String>)
    ensures
        match sample {
            Some(sample) => result == Ok::<S, String>(sample),
            None => result matches Err(error) && error@
                == "Direct MP4 demuxer did not return a video sample before timeout."@,
        },
{
    match sample {
        Some(sample) => Ok(sample),
        None => Err(
            String::from_str("Direct MP4 demuxer did not return a video sample before timeout."),
        ),
    }
}

/// Whether a single sample can be pushed into a decoder: an asynchronous one
/// takes input only when it asks for it.
pub fn can_process_first_direct_mp4_sample(asynchronous: bool) -> (result: Result<(), String>)
    ensures
        !asynchronous ==> result is Ok,
        asynchronous ==> (result matches Err(error) && error@
            == "Hardware MFT is asynchronous; use the event-driven native smoke test."@),
{
    if asynchronous {
        Err(
            String::from_str(
                "Hardware MFT is asynchronous; use the event-driven native smoke test.",
            ),
        )
    } else {
        Ok(())
    }
}

/// Whether a sample can be pushed through a decoder in one go.
pub fn process_sample_to_nv12(asynchronous: bool) -> (result: Result<(), String>)
    ensures
        !asynchronous ==> result is Ok,
        asynchronous ==> (result matches Err(error) && error@
            == "Hardware MFT is asynchronous; direct ProcessOutput is only valid after METransformHaveOutput."@),
{
    if asynchronous {
        Err(
            String::from_str(
                "Hardware MFT is asynchronous; direct ProcessOutput is only valid after METransformHaveOutput.",
            ),
        )
    } else {
        Ok(())
    }
}

/// Whether a decoder brings its own output samples, by the flags of its output
/// stream. Only then do frames stay on the graphics device.
pub fn output_samples_provided(flags: u32) -> (result: Result<(), String>)
    ensures
        flags & OUTPUT_PROVIDES_SAMPLES != 0 ==> result is Ok,
        flags & OUTPUT_PROVIDES_SAMPLES == 0 ==> (result matches Err(error) && error@
            == "Hardware MFT requires an application-owned output buffer; GPU surface allocation is the next compatibility path."@),
{
    if flags & OUTPUT_PROVIDES_SAMPLES == 0 {
        Err(
            String::from_str(
                "Hardware MFT requires an application-owned output buffer; GPU surface allocation is the next compatibility path.",
            ),
        )
    } else {
        Ok(())
    }
}

/// The frame that a successful decoder gave.
pub fn nv12_sample<S>(sample: Option<S>) -> (result: Result<S, String>)
    ensures
        match sample {
            Some(sample) => result == Ok::<S, String>(sample),
            None => result matches Err(error) && error@
                == "Hardware MFT returned success without an NV12 output sample."@,
        },
{
    match sample {
        Some(sample) => Ok(sample),
        None => Err(
            String::from_str("Hardware MFT returned success without an NV12 output sample."),
        ),
    }
}

/// A failed call: its status code and its text.
pub struct StatusError {
    pub status: i32,
    pub error: String,
}

/// What a try to get output means.
pub enum OutputVerdict {
    /// Hand on what the decoder gave.
    Deliver,
    /// There is no output now.
    NoOutput,
    /// Agree on the new output type and try again.
    Renegotiate,
    /// The decoder failed.
    Failed(String),
}

/// One pull of output, which copes with a changed output type once.
pub struct OutputPull {
    pub attempts: u32,
}

impl OutputPull {
    /// A pull in which nothing was tried.
    pub fn new() -> (pull: Self)
        ensures
            pull.attempts == 0,
    {
        OutputPull { attempts: 0 }
    }

    /// Begins a try, if one is left.
    pub fn begin(&mut self) -> (result: Result<(), String>)
        ensures
            old(self).attempts < MAX_OUTPUT_ATTEMPTS ==> result is Ok && final(self).attempts
                == old(self).attempts + 1,
            old(self).attempts >= MAX_OUTPUT_ATTEMPTS ==> (result matches Err(error) && error@
                == "Hardware MFT repeatedly changed its output stream type."@
                && final(self).attempts == old(self).attempts),
    {
        if self.attempts < MAX_OUTPUT_ATTEMPTS {
            self.attempts = self.attempts + 1;
            Ok(())
        } else {
            Err(String::from_str("Hardware MFT repeatedly changed its output stream type."))
        }
    }
}

/// What a try to get output means.
pub fn try_process_output(result: Result<(), StatusError>) -> (verdict: OutputVerdict)
    ensures
        match result {
            Ok(()) => verdict is Deliver,
            Err(failure) => if failure.status == STATUS_NEED_MORE_INPUT {
                verdict is NoOutput
            } else if failure.status == STATUS_STREAM_CHANGE {
                verdict is Renegotiate
            } else {
                verdict matches OutputVerdict::Failed(error) && error@
                    == "Hardware MFT ProcessOutput failed: "@ + failure.error@
            },
        },
{
    match result {
        Ok(()) => OutputVerdict::Deliver,
        Err(failure) => {
            if failure.status == STATUS_NEED_MORE_INPUT {
                OutputVerdict::NoOutput
            } else if failure.status == STATUS_STREAM_CHANGE {
                OutputVerdict::Renegotiate
            } else {
                let mut error = String::from_str("Hardware MFT ProcessOutput failed: ");
                error.append(failure.error.as_str());
                OutputVerdict::Failed(error)
            }
        },
    }
}

/// How many times the output is drained after an input: once, and once more
/// where the decoder had no room for the input.
pub fn feed_and_collect_output(result: Result<(), StatusError>) -> (drains: Result<u32, String>)
    ensures
        match result {
            Ok(()) => drains == Ok::<u32, String>(1),
            Err(failure) => if failure.status == STATUS_NOT_ACCEPTING {
                drains == Ok::<u32, String>(2)
            } else {
                drains matches Err(error) && error@ == "Hardware MFT ProcessInput failed: "@
                    + failure.error@
            },
        },
{
    match result {
        Ok(()) => Ok(1),
        Err(failure) => {
            if failure.status == STATUS_NOT_ACCEPTING {
                Ok(2)
            } else {
                let mut error = String::from_str("Hardware MFT ProcessInput failed: ");
                error.append(failure.error.as_str());
                Err(error)
            }
        },
    }
}

/// The streams after the one where the search ends do not matter: what is
/// found in the front part of a file is found in the file.
pub proof fn later_streams_do_not_matter(
    streams: Seq<StreamReading>,
    more: Seq<StreamReading>,
    i: int,
    subtype: u128,
)
    requires
        finds_video(streams, i, subtype),
    ensures
        finds_video(streams + more, i, subtype),
{
    assert forall|j: int| 0 <= j < i implies !decisive(#[trigger] (streams + more)[j]) by {
        assert(!decisive(streams[j]));
    }
}

/// At most one stream is selected.
pub proof fn one_stream_is_selected(streams: Seq<Result<bool, String>>, i: int, k: int)
    requires
        first_video(streams, i),
        first_video(streams, k),
    ensures
        i == k,
{
    if i < k {
        assert(streams[i] != Ok::<bool, String>(true));
    }
    if k < i {
        assert(streams[k] != Ok::<bool, String>(true));
    }
}

/// The video of a file is its first stream that is known to be video and has a
/// subtype, unless a stream before it could not be read: every stream in front
/// of it is missing or of another kind.
pub proof fn the_first_video_stream_is_found(
    streams: Seq<StreamReading>,
    i: int,
    subtype: u128,
)
    ensures
        finds_video(streams, i, subtype) <==> {
            &&& 0 <= i < streams.len()
            &&& streams[i] == (StreamReading::Typed {
                major: Some(0x73646976_0000_0010_8000_00aa00389b71),
                subtype: Some(subtype),
            })
            &&& forall|j: int| 0 <= j < i ==> passed_over(#[trigger] streams[j])
        },
{
    if finds_video(streams, i, subtype) {
        assert forall|j: int| 0 <= j < i implies passed_over(#[trigger] streams[j]) by {
            assert(!decisive(streams[j]));
            lemma_passed_over(streams[j]);
        }
    }
    if 0 <= i < streams.len() && forall|j: int|
        0 <= j < i ==> passed_over(#[trigger] streams[j]) {
        assert forall|j: int| 0 <= j < i implies !decisive(#[trigger] streams[j]) by {
            lemma_passed_over(streams[j]);
        }
    }
}

/// Whether the search passes over a stream: it is missing, or of another kind.
pub open spec fn passed_over(stream: StreamReading) -> bool {
    match stream {
        StreamReading::Missing => true,
        StreamReading::Typed { major, .. } => major != Some(
            0x73646976_0000_0010_8000_00aa00389b71u128,
        ),
        _ => false,
    }
}

proof fn lemma_passed_over(stream: StreamReading)
    ensures
        passed_over(stream) <==> !decisive(stream),
{
}

/// The search has an answer for every file, a video stream or a reason, and never
/// both. Where all is passed over, the reason is that there is no video stream.
pub proof fn the_search_has_an_answer(streams: Seq<StreamReading>, error: Seq<char>)
    ensures
        search_error(streams, error) ==> forall|i: int, subtype: u128|
            !#[trigger] finds_video(streams, i, subtype),
        (forall|j: int| 0 <= j < streams.len() ==> passed_over(#[trigger] streams[j])) ==> (
        search_error(streams, error) <==> error == "MP4 has no video stream."@),
{
    if search_error(streams, error) {
        lemma_no_video_on_error(streams, error);
    }
    if forall|j: int| 0 <= j < streams.len() ==> passed_over(#[trigger] streams[j]) {
        assert forall|j: int| 0 <= j < streams.len() implies !decisive(#[trigger] streams[j]) by {
            lemma_passed_over(streams[j]);
        }
        assert(search_fails(streams));
        lemma_search_exclusive(streams);
    }
}

/// Where the search ends without a video to play, the reason is that of the
/// stream at which it ends: a stream or a type that cannot be read is reported
/// with its reason, a stream with its number too, and a video without a subtype
/// as such.
pub proof fn the_reason_is_that_of_the_stream(
    streams: Seq<StreamReading>,
    i: int,
    error: Seq<char>,
)
    requires
        0 <= i < streams.len(),
        forall|j: int| 0 <= j < i ==> passed_over(#[trigger] streams[j]),
        !passed_over(streams[i]),
    ensures
        search_error(streams, error) <==> match streams[i] {
            StreamReading::Unreadable(reason) => error == "MP4 stream "@ + decimal(i as nat)
                + ": "@ + reason@,
            StreamReading::Untyped(reason) => error == "MP4 stream type: "@ + reason@,
            StreamReading::Typed { subtype, .. } => subtype is None && error
                == "MP4 video stream has no subtype."@,
            StreamReading::Missing => false,
        },
{
    assert forall|j: int| 0 <= j < i implies !decisive(#[trigger] streams[j]) by {
        lemma_passed_over(streams[j]);
    }
    lemma_passed_over(streams[i]);
    assert(search_ends_at(streams, i));
    lemma_search_exclusive(streams);
    if search_error(streams, error) {
        let k = choose|k: int| #[trigger]
            search_ends_at(streams, k) && (match streams[k] {
                StreamReading::Unreadable(reason) => error == stream_error(k, reason@),
                StreamReading::Untyped(reason) => error == "MP4 stream type: "@ + reason@,
                StreamReading::Typed { subtype: None, .. } => error
                    == "MP4 video stream has no subtype."@,
                _ => false,
            });
        lemma_search_end_unique(streams, i, k);
    }
}

/// Exactly H.264 and HEVC are decoded.
pub proof fn two_codecs_are_decoded(subtype: u128)
    ensures
        decodable(subtype) <==> subtype == 0x34363248_0000_0010_8000_00aa00389b71 || subtype
            == 0x43564548_0000_0010_8000_00aa00389b71,
{
}

/// A stream is selected exactly where it is video and none before it is.
pub proof fn the_first_video_is_selected(streams: Seq<Result<bool, String>>, i: int)
    ensures
        first_video(streams, i) <==> {
            &&& 0 <= i < streams.len()
            &&& streams[i] matches Ok(video) && video
            &&& forall|j: int|
                0 <= j < i ==> (#[trigger] streams[j] matches Ok(video) ==> !video)
        },
{
    if first_video(streams, i) {
        assert forall|j: int| 0 <= j < i implies (#[trigger] streams[j] matches Ok(video) ==> !video)
            by {
            assert(streams[j] != Ok::<bool, String>(true));
        }
    }
}

/// What the events of a source and of a stream ask for: a new stream is opened,
/// a started stream can be asked for samples, and a sample is taken. Everything
/// else, and everything that comes from the wrong side, is ignored.
pub proof fn events_ask_for_the_next_step(stream_open: bool, kind: Option<u32>)
    ensures
        event_meaning(stream_open, kind) == DirectEvent::OpenStream <==> !stream_open && kind
            == Some(205u32),
        event_meaning(stream_open, kind) == DirectEvent::StreamStarted <==> stream_open && kind
            == Some(202u32),
        event_meaning(stream_open, kind) == DirectEvent::TakeSample <==> stream_open && kind
            == Some(213u32),
{
}

/// A bounded read opens its stream, requests a sample once that has started, and
/// ends with the sample that comes; nothing else moves it.
pub proof fn a_read_goes_step_by_step(kind: Option<u32>)
    ensures
        ({
            let fresh = FirstSample { stream_open: false, taken: false };
            let (open, open_event) = fresh.after(Some(205u32));
            let (started, start_event) = open.after(Some(202u32));
            let (taken, take_event) = started.after(Some(213u32));
            &&& open_event == DirectEvent::OpenStream && open.stream_open && !open.taken
            &&& start_event == DirectEvent::StreamStarted && !started.taken
            &&& take_event == DirectEvent::TakeSample && taken.taken
            &&& kind != Some(205u32) ==> fresh.after(kind) == (fresh, DirectEvent::Ignore)
            &&& kind != Some(213u32) ==> open.after(kind).0 == open
        }),
{
}

/// A decoder works on the graphics device exactly where it says so.
pub proof fn a_decoder_says_what_it_works_on(device_aware: Option<u32>)
    ensures
        works_on_device(device_aware) <==> device_aware is Some && device_aware->0 != 0,
{
}

/// An identifier is written in its usual form: 32 digits in groups of 8, 4, 4, 4
/// and 12, with a hyphen between groups. The groups are the bits of the
/// identifier, from the highest to the lowest.
pub proof fn identifiers_are_written_in_groups(id: nat)
    ensures
        ({
            let text = identifier_text(id);
            &&& text.len() == 36
            &&& text[8] == '-' && text[13] == '-' && text[18] == '-' && text[23] == '-'
            &&& text.subrange(0, 8) == hexadecimal(id / 0x1_0000_0000_0000_0000_0000_0000, 8)
            &&& text.subrange(9, 13) == hexadecimal(id / 0x1_0000_0000_0000_0000_0000, 4)
            &&& text.subrange(14, 18) == hexadecimal(id / 0x1_0000_0000_0000_0000, 4)
            &&& text.subrange(19, 23) == hexadecimal(id / 0x1_0000_0000_0000, 4)
            &&& text.subrange(24, 36) == hexadecimal(id, 12)
        }),
{
    reveal_strlit("-");
    let a = hexadecimal(id / 0x1_0000_0000_0000_0000_0000_0000, 8);
    let b = hexadecimal(id / 0x1_0000_0000_0000_0000_0000, 4);
    let c = hexadecimal(id / 0x1_0000_0000_0000_0000, 4);
    let d = hexadecimal(id / 0x1_0000_0000_0000, 4);
    let e = hexadecimal(id, 12);
    hexadecimal_notation_is_read_back(id / 0x1_0000_0000_0000_0000_0000_0000, 8);
    hexadecimal_notation_is_read_back(id / 0x1_0000_0000_0000_0000_0000, 4);
    hexadecimal_notation_is_read_back(id / 0x1_0000_0000_0000_0000, 4);
    hexadecimal_notation_is_read_back(id / 0x1_0000_0000_0000, 4);
    hexadecimal_notation_is_read_back(id, 12);
    let text = identifier_text(id);
    assert(text.subrange(0, 8) =~= a);
    assert(text.subrange(9, 13) =~= b);
    assert(text.subrange(14, 18) =~= c);
    assert(text.subrange(19, 23) =~= d);
    assert(text.subrange(24, 36) =~= e);
}

/// The codes, flags and bounds by which decoders are dealt with are those of the
/// platform: a status is the signed reading of its 32 bits.
pub proof fn decoder_codes_are_those_of_the_platform()
    ensures
        STATUS_NOT_ACCEPTING + 0x1_0000_0000 == 0xC00D36B5int,
        STATUS_NEED_MORE_INPUT + 0x1_0000_0000 == 0xC00D6D72int,
        STATUS_STREAM_CHANGE + 0x1_0000_0000 == 0xC00D6D61int,
        OUTPUT_PROVIDES_SAMPLES == 0x100,
        SUBTYPE_NV12 == 0x3231564e_0000_0010_8000_00aa00389b71,
        MAX_OUTPUT_TYPES == 32,
        MAX_OUTPUT_ATTEMPTS == 2,
        DECODER_LIST_FLAGS == 63 + 64,
{
}

} // verus!

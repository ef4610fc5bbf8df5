//! The encode and mux protocol: which call comes next, what its reply means,
//! and in what words a failure is reported.
//!
//! Each step names one call into ffmpeg. The driver makes the call and answers
//! with its reply; a pointer that came back null is answered with -1.
use vstd::prelude::*;

use crate::json::Json;
use crate::loom_render::audio::{
    cut_size, frame_size_of, plan_audio, planned_audio, DecodedAudio, MAX_SAMPLES_PER_CH,
};
use crate::loom_render::ffmpeg::{drained, ffmpeg_err, ffmpeg_failure, is_drained};
use crate::loom_render::render::{Compose, Composed, EncoderAvailability, Triple, TripleNames};
use crate::text::{joined3, same_text, signed_decimal};

verus! {

/// The image formats that a screenshot may have, in the order in which they
/// are tried.
#[derive(Debug, Clone, Copy, PartialEq, Eq, Structural)]
pub enum ImageCodec {
    Png,
    Mjpeg,
}

/// The next thing to do to decode a screenshot.
#[derive(Debug, Clone, Copy, PartialEq, Eq, Structural)]
pub enum ImageStep {
    FindDecoder,
    AllocContext,
    Open,
    AllocPacket,
    SendPacket,
    AllocFrame,
    ReceiveFrame,
    Decoded,
}

/// Where the decoding of a screenshot stands.
#[derive(Debug, Clone, Copy, PartialEq, Eq, Structural)]
pub struct ImageDecoding {
    pub codec: ImageCodec,
    pub step: ImageStep,
}

/// The decoding of the screenshot in the given format from its first call on.
pub open spec fn image_attempt(codec: ImageCodec) -> ImageDecoding {
    ImageDecoding { codec, step: ImageStep::FindDecoder }
}

/// What becomes of the decoding when the current format does not take the
/// bytes: the next format, or the end.
pub open spec fn image_retry(codec: ImageCodec) -> Result<ImageDecoding, Seq<char>> {
    match codec {
        ImageCodec::Png => Ok(image_attempt(ImageCodec::Mjpeg)),
        ImageCodec::Mjpeg => Err("could not decode screenshot as PNG or JPEG"@),
    }
}

/// What becomes of the decoding when the call replies `reply`.
pub open spec fn image_outcome(state: ImageDecoding, reply: i32) -> Result<
    ImageDecoding,
    Seq<char>,
> {
    let on = |step: ImageStep| Ok::<ImageDecoding, Seq<char>>(ImageDecoding { step, ..state });
    match state.step {
        ImageStep::FindDecoder => if reply < 0 {
            image_retry(state.codec)
        } else {
            on(ImageStep::AllocContext)
        },
        ImageStep::AllocContext => if reply < 0 {
            Err("avcodec_alloc_context3 (image decoder) returned null"@)
        } else {
            on(ImageStep::Open)
        },
        ImageStep::Open => if reply < 0 {
            image_retry(state.codec)
        } else {
            on(ImageStep::AllocPacket)
        },
        ImageStep::AllocPacket => if reply < 0 {
            Err("av_packet_alloc returned null"@)
        } else {
            on(ImageStep::SendPacket)
        },
        ImageStep::SendPacket => if reply < 0 {
            image_retry(state.codec)
        } else {
            on(ImageStep::AllocFrame)
        },
        ImageStep::AllocFrame => if reply < 0 {
            Err("av_frame_alloc returned null"@)
        } else {
            on(ImageStep::ReceiveFrame)
        },
        ImageStep::ReceiveFrame => if reply == 0 {
            on(ImageStep::Decoded)
        } else {
            image_retry(state.codec)
        },
        ImageStep::Decoded => on(ImageStep::Decoded),
    }
}

impl ImageDecoding {
    /// Before the first call: PNG is tried first.
    pub fn start() -> (r: ImageDecoding)
        ensures
            r == image_attempt(ImageCodec::Png),
    {
        ImageDecoding { codec: ImageCodec::Png, step: ImageStep::FindDecoder }
    }

    /// Turns to the next format.
    fn retry(self) -> (r: Result<ImageDecoding, String>)
        ensures
            match r {
                Ok(next) => image_retry(self.codec) == Ok::<ImageDecoding, Seq<char>>(next),
                Err(e) => image_retry(self.codec) == Err::<ImageDecoding, Seq<char>>(e@),
            },
    {
        match self.codec {
            ImageCodec::Png => Ok(
                ImageDecoding { codec: ImageCodec::Mjpeg, step: ImageStep::FindDecoder },
            ),
            ImageCodec::Mjpeg => Err("could not decode screenshot as PNG or JPEG".to_owned()),
        }
    }

    /// Goes on after a call that replied `reply`.
    pub fn advance(self, reply: i32) -> (r: Result<ImageDecoding, String>)
        ensures
            match r {
                Ok(next) => image_outcome(self, reply) == Ok::<ImageDecoding, Seq<char>>(next),
                Err(e) => image_outcome(self, reply) == Err::<ImageDecoding, Seq<char>>(e@),
            },
    {
        let failed = reply < 0;
        let step = match self.step {
            ImageStep::FindDecoder => {
                if failed {
                    return self.retry();
                }
                ImageStep::AllocContext
            },
            ImageStep::AllocContext => {
                if failed {
                    return Err("avcodec_alloc_context3 (image decoder) returned null".to_owned());
                }
                ImageStep::Open
            },
            ImageStep::Open => {
                if failed {
                    return self.retry();
                }
                ImageStep::AllocPacket
            },
            ImageStep::AllocPacket => {
                if failed {
                    return Err("av_packet_alloc returned null".to_owned());
                }
                ImageStep::SendPacket
            },
            ImageStep::SendPacket => {
                if failed {
                    return self.retry();
                }
                ImageStep::AllocFrame
            },
            ImageStep::AllocFrame => {
                if failed {
                    return Err("av_frame_alloc returned null".to_owned());
                }
                ImageStep::ReceiveFrame
            },
            ImageStep::ReceiveFrame => {
                if reply != 0 {
                    return self.retry();
                }
                ImageStep::Decoded
            },
            ImageStep::Decoded => ImageStep::Decoded,
        };
        Ok(ImageDecoding { codec: self.codec, step })
    }
}

/// How often a decoding that stands at `state` can still go on before it ends.
pub open spec fn image_calls_left(state: ImageDecoding) -> nat {
    let here: nat = match state.step {
        ImageStep::FindDecoder => 7,
        ImageStep::AllocContext => 6,
        ImageStep::Open => 5,
        ImageStep::AllocPacket => 4,
        ImageStep::SendPacket => 3,
        ImageStep::AllocFrame => 2,
        ImageStep::ReceiveFrame => 1,
        ImageStep::Decoded => 0,
    };
    match state.codec {
        ImageCodec::Png => if state.step == ImageStep::Decoded {
            0
        } else {
            here + 7
        },
        ImageCodec::Mjpeg => here,
    }
}

/// Decoding a screenshot ends: every call brings it nearer to its end, and a
/// frame is the only end that is no failure.
pub proof fn law_image_decoding_ends(state: ImageDecoding, reply: i32)
    requires
        state.step != ImageStep::Decoded,
    ensures
        image_outcome(state, reply) matches Ok(next) ==> image_calls_left(next)
            < image_calls_left(state),
        image_calls_left(state) > 0,
{
}

/// What a video is to be made of.
pub struct EncodePlan {
    pub width: i32,
    pub height: i32,
    pub fps: i32,
    pub n_frames: i64,
    pub triple: Triple,
    pub audio: Option<AudioTrack>,
}

/// The audio that goes with the video.
#[derive(Debug, Clone, Copy, PartialEq, Eq)]
pub struct AudioTrack {
    pub codec_name: &'static str,
    /// The number of samples in each channel.
    pub samples: usize,
}

/// How the video encoder is set up before it is opened.
#[derive(Debug, Clone, Copy, PartialEq, Eq, Structural)]
pub struct VideoSettings {
    pub width: i32,
    pub height: i32,
    /// The time base is one over this, the frame rate this over one.
    pub fps: i32,
    pub gop_size: i32,
    pub bit_rate: i64,
    pub thread_count: i32,
    pub global_header: bool,
}

/// The next call to make.
#[derive(Debug, Clone, Copy, PartialEq, Eq, Structural)]
pub enum Stage {
    FindVideoEncoder,
    AllocVideoContext,
    OpenVideoEncoder,
    FindAudioEncoder,
    AllocAudioContext,
    OpenAudioEncoder,
    /// Read the frame size that the opened audio encoder publishes; it is the
    /// reply.
    ReadFrameSize,
    AllocSink,
    AllocOutput,
    NewVideoStream,
    CopyVideoParameters,
    NewAudioStream,
    CopyAudioParameters,
    /// Set the options of the MP4 muxer.
    SetMuxOptions,
    WriteHeader,
    CreateScaler,
    AllocPicture,
    AllocPictureBuffer,
    ScalePicture,
    AllocVideoPacket,
    /// Send the picture with this presentation time.
    SendPicture { pts: i64 },
    FlushVideo,
    /// Ask for a packet, with `sent` pictures sent.
    ReceiveVideoPacket { sent: i64, flushed: bool },
    WriteVideoPacket { sent: i64, flushed: bool },
    AllocAudioPacket,
    AllocAudioFrame { offset: usize },
    AllocAudioBuffer { offset: usize },
    /// Send the audio frame that starts at this sample, which is also its
    /// presentation time.
    SendAudioFrame { offset: usize },
    FlushAudio,
    /// Ask for a packet, with the samples before `reached` sent.
    ReceiveAudioPacket { reached: usize, flushed: bool },
    WriteAudioPacket { reached: usize, flushed: bool },
    WriteTrailer,
    Finished,
}

/// Where the encoding stands.
#[derive(Debug, Clone, Copy, PartialEq, Eq, Structural)]
pub struct EncodeState {
    pub stage: Stage,
    /// The number of samples in an audio frame, once it is known.
    pub frame_size: i32,
}

/// Half of `p`, rounded towards zero.
pub open spec fn halved(p: int) -> int {
    if p >= 0 {
        p / 2
    } else {
        -((-p) / 2)
    }
}

impl EncodePlan {
    /// A plan has at least one picture, and its audio is within the ceiling
    /// that decoding keeps.
    pub open spec fn wf(self) -> bool {
        &&& self.n_frames >= 1
        &&& self.audio matches Some(track) ==> track.samples <= MAX_SAMPLES_PER_CH
    }

    /// Whether the container is MP4.
    pub open spec fn in_mp4(self) -> bool {
        self.triple.container@ == "mp4"@
    }

    /// The stage for the next picture, or the flush behind the last.
    pub open spec fn picture_stage(self, sent: i64) -> Stage {
        if sent < self.n_frames {
            Stage::SendPicture { pts: sent }
        } else {
            Stage::FlushVideo
        }
    }

    /// The stage for the next audio frame, or the flush behind the last.
    pub open spec fn sound_stage(self, sent: usize) -> Stage {
        if self.audio matches Some(track) && sent < track.samples {
            Stage::AllocAudioFrame { offset: sent }
        } else {
            Stage::FlushAudio
        }
    }

    /// What ends the encoding when the call at `stage` replies `reply`.
    pub open spec fn complaint(self, stage: Stage, reply: i32) -> Option<Seq<char>> {
        let codec = self.audio->Some_0.codec_name@;
        if reply >= 0 {
            None
        } else {
            match stage {
                Stage::FindVideoEncoder => Some(
                    "video encoder "@ + self.triple.video@ + " not found in this build"@,
                ),
                Stage::AllocVideoContext => Some(
                    "avcodec_alloc_context3 (video) returned null"@,
                ),
                Stage::OpenVideoEncoder => Some(
                    "could not open "@ + self.triple.video@ + " encoder"@,
                ),
                Stage::FindAudioEncoder => Some("audio encoder "@ + codec + " not found"@),
                Stage::AllocAudioContext => Some(
                    "avcodec_alloc_context3 (audio) returned null"@,
                ),
                Stage::OpenAudioEncoder => Some("could not open "@ + codec + " encoder"@),
                Stage::ReadFrameSize => None,
                Stage::AllocSink => Some("avio_alloc_context returned null"@),
                Stage::AllocOutput => Some(
                    "could not allocate "@ + self.triple.container@ + " output context"@,
                ),
                Stage::NewVideoStream => Some("avformat_new_stream returned null"@),
                Stage::CopyVideoParameters => Some("avcodec_parameters_from_context failed"@),
                Stage::NewAudioStream => Some("avformat_new_stream (audio) returned null"@),
                Stage::CopyAudioParameters => Some(
                    "avcodec_parameters_from_context (audio) failed"@,
                ),
                Stage::SetMuxOptions => Some("could not set fragmented MP4 options"@),
                Stage::WriteHeader => Some(
                    ffmpeg_failure("avformat_write_header failed"@, reply),
                ),
                Stage::CreateScaler => Some("sws_getContext returned null"@),
                Stage::AllocPicture => Some("av_frame_alloc (yuv) returned null"@),
                Stage::AllocPictureBuffer => Some("av_frame_get_buffer failed"@),
                Stage::ScalePicture => None,
                Stage::AllocVideoPacket => Some("av_packet_alloc (mux) returned null"@),
                Stage::SendPicture { .. } => Some(
                    ffmpeg_failure("avcodec_send_frame failed"@, reply),
                ),
                Stage::FlushVideo => None,
                Stage::ReceiveVideoPacket { .. } => if drained(reply) {
                    None
                } else {
                    Some(ffmpeg_failure("avcodec_receive_packet failed"@, reply))
                },
                Stage::WriteVideoPacket { .. } => Some("av_interleaved_write_frame failed"@),
                Stage::AllocAudioPacket => Some("av_packet_alloc (audio) returned null"@),
                Stage::AllocAudioFrame { .. } => Some("av_frame_alloc (audio) returned null"@),
                Stage::AllocAudioBuffer { .. } => Some("av_frame_get_buffer (audio) failed"@),
                Stage::SendAudioFrame { .. } => Some(
                    ffmpeg_failure("audio send_frame failed"@, reply),
                ),
                Stage::FlushAudio => None,
                Stage::ReceiveAudioPacket { .. } => if drained(reply) {
                    None
                } else {
                    Some(ffmpeg_failure("audio receive_packet failed"@, reply))
                },
                Stage::WriteAudioPacket { .. } => Some(
                    "audio interleaved_write_frame failed"@,
                ),
                Stage::WriteTrailer => Some("av_write_trailer failed"@),
                Stage::Finished => None,
            }
        }
    }

    /// The stage behind one whose call replied `reply`, which was no failure.
    pub open spec fn stage_after(self, state: EncodeState, reply: i32) -> Stage {
        let sound = self.audio is Some;
        match state.stage {
            Stage::FindVideoEncoder => Stage::AllocVideoContext,
            Stage::AllocVideoContext => Stage::OpenVideoEncoder,
            Stage::OpenVideoEncoder => if sound {
                Stage::FindAudioEncoder
            } else {
                Stage::AllocSink
            },
            Stage::FindAudioEncoder => Stage::AllocAudioContext,
            Stage::AllocAudioContext => Stage::OpenAudioEncoder,
            Stage::OpenAudioEncoder => Stage::ReadFrameSize,
            Stage::ReadFrameSize => Stage::AllocSink,
            Stage::AllocSink => Stage::AllocOutput,
            Stage::AllocOutput => Stage::NewVideoStream,
            Stage::NewVideoStream => Stage::CopyVideoParameters,
            Stage::CopyVideoParameters => if sound {
                Stage::NewAudioStream
            } else if self.in_mp4() {
                Stage::SetMuxOptions
            } else {
                Stage::WriteHeader
            },
            Stage::NewAudioStream => Stage::CopyAudioParameters,
            Stage::CopyAudioParameters => if self.in_mp4() {
                Stage::SetMuxOptions
            } else {
                Stage::WriteHeader
            },
            Stage::SetMuxOptions => Stage::WriteHeader,
            Stage::WriteHeader => Stage::CreateScaler,
            Stage::CreateScaler => Stage::AllocPicture,
            Stage::AllocPicture => Stage::AllocPictureBuffer,
            Stage::AllocPictureBuffer => Stage::ScalePicture,
            Stage::ScalePicture => Stage::AllocVideoPacket,
            Stage::AllocVideoPacket => self.picture_stage(0),
            Stage::SendPicture { pts } => Stage::ReceiveVideoPacket {
                sent: (pts + 1) as i64,
                flushed: false,
            },
            Stage::FlushVideo => Stage::ReceiveVideoPacket { sent: self.n_frames, flushed: true },
            Stage::ReceiveVideoPacket { sent, flushed } => if !drained(reply) {
                Stage::WriteVideoPacket { sent, flushed }
            } else if !flushed {
                self.picture_stage(sent)
            } else if sound {
                Stage::AllocAudioPacket
            } else {
                Stage::WriteTrailer
            },
            Stage::WriteVideoPacket { sent, flushed } => Stage::ReceiveVideoPacket {
                sent,
                flushed,
            },
            Stage::AllocAudioPacket => self.sound_stage(0),
            Stage::AllocAudioFrame { offset } => Stage::AllocAudioBuffer { offset },
            Stage::AllocAudioBuffer { offset } => Stage::SendAudioFrame { offset },
            Stage::SendAudioFrame { offset } => Stage::ReceiveAudioPacket {
                reached: (offset + state.frame_size) as usize,
                flushed: false,
            },
            Stage::FlushAudio => Stage::ReceiveAudioPacket {
                reached: self.audio->Some_0.samples,
                flushed: true,
            },
            Stage::ReceiveAudioPacket { reached, flushed } => if !drained(reply) {
                Stage::WriteAudioPacket { reached, flushed }
            } else if !flushed {
                self.sound_stage(reached)
            } else {
                Stage::WriteTrailer
            },
            Stage::WriteAudioPacket { reached, flushed } => Stage::ReceiveAudioPacket {
                reached,
                flushed,
            },
            Stage::WriteTrailer => Stage::Finished,
            Stage::Finished => Stage::Finished,
        }
    }

    /// The state behind one whose call replied `reply`, which was no failure.
    pub open spec fn state_after(self, state: EncodeState, reply: i32) -> EncodeState {
        EncodeState {
            stage: self.stage_after(state, reply),
            frame_size: if state.stage == Stage::ReadFrameSize {
                cut_size(reply)
            } else {
                state.frame_size
            },
        }
    }

    /// The state before the first call.
    pub open spec fn first_state(self) -> EncodeState {
        EncodeState { stage: Stage::FindVideoEncoder, frame_size: 0 }
    }

    /// Which states an encoding can be in.
    pub open spec fn admits(self, state: EncodeState) -> bool {
        match state.stage {
            Stage::FindAudioEncoder
            | Stage::AllocAudioContext
            | Stage::OpenAudioEncoder
            | Stage::ReadFrameSize => self.audio is Some,
            Stage::FindVideoEncoder | Stage::AllocVideoContext | Stage::OpenVideoEncoder => true,
            _ => {
                &&& self.audio is Some ==> state.frame_size > 0
                &&& match state.stage {
                    Stage::NewAudioStream
                    | Stage::CopyAudioParameters
                    | Stage::AllocAudioPacket
                    | Stage::FlushAudio => self.audio is Some,
                    Stage::SetMuxOptions => self.in_mp4(),
                    Stage::SendPicture { pts } => 0 <= pts < self.n_frames,
                    Stage::ReceiveVideoPacket { sent, flushed }
                    | Stage::WriteVideoPacket { sent, flushed } => {
                        &&& 0 < sent <= self.n_frames
                        &&& flushed ==> sent == self.n_frames
                    },
                    Stage::AllocAudioFrame { offset }
                    | Stage::AllocAudioBuffer { offset }
                    | Stage::SendAudioFrame { offset } => {
                        &&& self.audio is Some
                        &&& offset < self.audio->Some_0.samples
                    },
                    Stage::ReceiveAudioPacket { reached, flushed }
                    | Stage::WriteAudioPacket { reached, flushed } => {
                        &&& self.audio is Some
                        &&& flushed ==> reached >= self.audio->Some_0.samples
                    },
                    _ => true,
                }
            },
        }
    }

    /// The state before the first call.
    pub fn start(&self) -> (r: EncodeState)
        ensures
            r == self.first_state(),
            self.admits(r),
    {
        EncodeState { stage: Stage::FindVideoEncoder, frame_size: 0 }
    }

    /// The stage for the next picture, or the flush behind the last.
    fn next_picture(&self, sent: i64) -> (r: Stage)
        ensures
            r == self.picture_stage(sent),
    {
        if sent < self.n_frames {
            Stage::SendPicture { pts: sent }
        } else {
            Stage::FlushVideo
        }
    }

    /// The stage for the next audio frame, or the flush behind the last.
    fn next_sound(&self, sent: usize) -> (r: Stage)
        ensures
            r == self.sound_stage(sent),
    {
        match &self.audio {
            Some(track) => if sent < track.samples {
                Stage::AllocAudioFrame { offset: sent }
            } else {
                Stage::FlushAudio
            },
            None => Stage::FlushAudio,
        }
    }

    /// The stage that leads to the header once all streams are declared.
    fn header_stage(&self) -> (r: Stage)
        ensures
            r == (if self.in_mp4() {
                Stage::SetMuxOptions
            } else {
                Stage::WriteHeader
            }),
    {
        if same_text(self.triple.container, "mp4") {
            Stage::SetMuxOptions
        } else {
            Stage::WriteHeader
        }
    }

    /// Goes on after a call that replied `reply`.
    pub fn advance(&self, state: EncodeState, reply: i32) -> (r: Result<EncodeState, String>)
        requires
            self.wf(),
            self.admits(state),
        ensures
            match r {
                Ok(next) => {
                    &&& self.complaint(state.stage, reply) is None
                    &&& next == self.state_after(state, reply)
                    &&& self.admits(next)
                },
                Err(e) => self.complaint(state.stage, reply) == Some(e@),
            },
    {
        let failed = reply < 0;
        let sound = self.audio.is_some();
        let (codec, samples): (&'static str, usize) = match &self.audio {
            Some(track) => (track.codec_name, track.samples),
            None => ("none", 0),
        };
        let mut frame_size: i32 = state.frame_size;
        let stage = match state.stage {
            Stage::FindVideoEncoder => {
                if failed {
                    return Err(
                        joined3("video encoder ", self.triple.video, " not found in this build"),
                    );
                }
                Stage::AllocVideoContext
            },
            Stage::AllocVideoContext => {
                if failed {
                    return Err("avcodec_alloc_context3 (video) returned null".to_owned());
                }
                Stage::OpenVideoEncoder
            },
            Stage::OpenVideoEncoder => {
                if failed {
                    return Err(joined3("could not open ", self.triple.video, " encoder"));
                }
                if sound {
                    Stage::FindAudioEncoder
                } else {
                    Stage::AllocSink
                }
            },
            Stage::FindAudioEncoder => {
                if failed {
                    return Err(joined3("audio encoder ", codec, " not found"));
                }
                Stage::AllocAudioContext
            },
            Stage::AllocAudioContext => {
                if failed {
                    return Err("avcodec_alloc_context3 (audio) returned null".to_owned());
                }
                Stage::OpenAudioEncoder
            },
            Stage::OpenAudioEncoder => {
                if failed {
                    return Err(joined3("could not open ", codec, " encoder"));
                }
                Stage::ReadFrameSize
            },
            Stage::ReadFrameSize => {
                frame_size = frame_size_of(reply);
                Stage::AllocSink
            },
            Stage::AllocSink => {
                if failed {
                    return Err("avio_alloc_context returned null".to_owned());
                }
                Stage::AllocOutput
            },
            Stage::AllocOutput => {
                if failed {
                    return Err(
                        joined3("could not allocate ", self.triple.container, " output context"),
                    );
                }
                Stage::NewVideoStream
            },
            Stage::NewVideoStream => {
                if failed {
                    return Err("avformat_new_stream returned null".to_owned());
                }
                Stage::CopyVideoParameters
            },
            Stage::CopyVideoParameters => {
                if failed {
                    return Err("avcodec_parameters_from_context failed".to_owned());
                }
                if sound {
                    Stage::NewAudioStream
                } else {
                    self.header_stage()
                }
            },
            Stage::NewAudioStream => {
                if failed {
                    return Err("avformat_new_stream (audio) returned null".to_owned());
                }
                Stage::CopyAudioParameters
            },
            Stage::CopyAudioParameters => {
                if failed {
                    return Err("avcodec_parameters_from_context (audio) failed".to_owned());
                }
                self.header_stage()
            },
            Stage::SetMuxOptions => {
                if failed {
                    return Err("could not set fragmented MP4 options".to_owned());
                }
                Stage::WriteHeader
            },
            Stage::WriteHeader => {
                if failed {
                    return Err(ffmpeg_err("avformat_write_header failed", reply));
                }
                Stage::CreateScaler
            },
            Stage::CreateScaler => {
                if failed {
                    return Err("sws_getContext returned null".to_owned());
                }
                Stage::AllocPicture
            },
            Stage::AllocPicture => {
                if failed {
                    return Err("av_frame_alloc (yuv) returned null".to_owned());
                }
                Stage::AllocPictureBuffer
            },
            Stage::AllocPictureBuffer => {
                if failed {
                    return Err("av_frame_get_buffer failed".to_owned());
                }
                Stage::ScalePicture
            },
            Stage::ScalePicture => Stage::AllocVideoPacket,
            Stage::AllocVideoPacket => {
                if failed {
                    return Err("av_packet_alloc (mux) returned null".to_owned());
                }
                self.next_picture(0)
            },
            Stage::SendPicture { pts } => {
                if failed {
                    return Err(ffmpeg_err("avcodec_send_frame failed", reply));
                }
                Stage::ReceiveVideoPacket { sent: pts + 1, flushed: false }
            },
            Stage::FlushVideo => Stage::ReceiveVideoPacket { sent: self.n_frames, flushed: true },
            Stage::ReceiveVideoPacket { sent, flushed } => {
                if is_drained(reply) {
                    if !flushed {
                        self.next_picture(sent)
                    } else if sound {
                        Stage::AllocAudioPacket
                    } else {
                        Stage::WriteTrailer
                    }
                } else if failed {
                    return Err(ffmpeg_err("avcodec_receive_packet failed", reply));
                } else {
                    Stage::WriteVideoPacket { sent, flushed }
                }
            },
            Stage::WriteVideoPacket { sent, flushed } => {
                if failed {
                    return Err("av_interleaved_write_frame failed".to_owned());
                }
                Stage::ReceiveVideoPacket { sent, flushed }
            },
            Stage::AllocAudioPacket => {
                if failed {
                    return Err("av_packet_alloc (audio) returned null".to_owned());
                }
                self.next_sound(0)
            },
            Stage::AllocAudioFrame { offset } => {
                if failed {
                    return Err("av_frame_alloc (audio) returned null".to_owned());
                }
                Stage::AllocAudioBuffer { offset }
            },
            Stage::AllocAudioBuffer { offset } => {
                if failed {
                    return Err("av_frame_get_buffer (audio) failed".to_owned());
                }
                Stage::SendAudioFrame { offset }
            },
            Stage::SendAudioFrame { offset } => {
                if failed {
                    return Err(ffmpeg_err("audio send_frame failed", reply));
                }
                Stage::ReceiveAudioPacket {
                    reached: offset + frame_size as usize,
                    flushed: false,
                }
            },
            Stage::FlushAudio => Stage::ReceiveAudioPacket { reached: samples, flushed: true },
            Stage::ReceiveAudioPacket { reached, flushed } => {
                if is_drained(reply) {
                    if !flushed {
                        self.next_sound(reached)
                    } else {
                        Stage::WriteTrailer
                    }
                } else if failed {
                    return Err(ffmpeg_err("audio receive_packet failed", reply));
                } else {
                    Stage::WriteAudioPacket { reached, flushed }
                }
            },
            Stage::WriteAudioPacket { reached, flushed } => {
                if failed {
                    return Err("audio interleaved_write_frame failed".to_owned());
                }
                Stage::ReceiveAudioPacket { reached, flushed }
            },
            Stage::WriteTrailer => {
                if failed {
                    return Err("av_write_trailer failed".to_owned());
                }
                Stage::Finished
            },
            Stage::Finished => Stage::Finished,
        };
        Ok(EncodeState { stage, frame_size })
    }

    /// How the video encoder is set up: one key picture each second, half a
    /// bit for each pixel and second, one thread, and for MP4 the codec setup
    /// in the container's header.
    pub fn video_settings(&self) -> (r: VideoSettings)
        ensures
            r == (VideoSettings {
                width: self.width,
                height: self.height,
                fps: self.fps,
                gop_size: self.fps,
                bit_rate: halved(self.width * self.height) as i64,
                thread_count: 1,
                global_header: self.in_mp4(),
            }),
    {
        let pixels: i64 = pixel_count(self.width, self.height);
        let bit_rate: i64 = if pixels >= 0 {
            pixels / 2
        } else {
            -((-pixels) / 2)
        };
        VideoSettings {
            width: self.width,
            height: self.height,
            fps: self.fps,
            gop_size: self.fps,
            bit_rate,
            thread_count: 1,
            global_header: same_text(self.triple.container, "mp4"),
        }
    }

    /// The audio codec that a finished video is reported to have.
    pub open spec fn reported_audio(self) -> Seq<char> {
        match self.audio {
            Some(track) => track.codec_name@,
            None => "none"@,
        }
    }

    /// The composed video, once the muxer has written `bytes`.
    pub fn finish(&self, bytes: Vec<u8>, duration_sec: Json) -> (r: Result<Composed, String>)
        ensures
            match r {
                Ok(c) => {
                    &&& bytes@.len() > 0
                    &&& c.bytes == bytes
                    &&& c.container@ == self.triple.container@
                    &&& c.mime_type@ == self.triple.mime_type@
                    &&& c.video_codec@ == self.triple.video@
                    &&& c.audio_codec@ == self.reported_audio()
                    &&& c.duration_sec == duration_sec
                },
                Err(e) => bytes@.len() == 0 && e@ == "encode produced an empty buffer"@,
            },
    {
        if bytes.len() == 0 {
            return Err("encode produced an empty buffer".to_owned());
        }
        let audio_codec: &'static str = match &self.audio {
            Some(track) => track.codec_name,
            None => "none",
        };
        Ok(
            Composed {
                bytes,
                container: self.triple.container,
                mime_type: self.triple.mime_type,
                video_codec: self.triple.video,
                audio_codec,
                duration_sec,
            },
        )
    }
}

/// The product of two dimensions.
fn pixel_count(width: i32, height: i32) -> (r: i64)
    ensures
        r == width * height,
        -0x4000_0000_0000_0000 <= r <= 0x4000_0000_0000_0000,
{
    assert(-0x4000_0000_0000_0000 <= width * height <= 0x4000_0000_0000_0000) by (nonlinear_arith)
        requires
            -0x8000_0000 <= width <= 0x7fff_ffff,
            -0x8000_0000 <= height <= 0x7fff_ffff,
    ;
    width as i64 * height as i64
}

/// The option of the MP4 muxer that makes it write fragments, so that it never
/// has to seek back.
pub const MUX_OPTION: &'static str = "movflags";

/// The value of [`MUX_OPTION`].
pub const MUX_OPTION_VALUE: &'static str = "frag_keyframe+empty_moov+default_base_moof";

/// The triple for a video without audio, or with audio of the given rate, and
/// the audio encoder that is planned; or why there is none.
pub open spec fn planned(a: EncoderAvailability, rate: Option<i32>) -> Result<
    (TripleNames, Option<Seq<char>>),
    Seq<char>,
> {
    match rate {
        None => match a.preferred() {
            Some(t) => Ok((t, None)),
            None => Err(
                "no usable (video,audio) encoder pair in this ffmpeg build: "@ + a.text(),
            ),
        },
        Some(rate) => match planned_audio(rate, a.opus, a.vorbis) {
            Err(e) => Err(e),
            Ok(codec) => match a.preferred_for(codec) {
                Some(t) => Ok((t, Some(codec))),
                None => Err("no compatible video/container pair for audio codec "@ + codec),
            },
        },
    }
}

/// Plans a video of `n_frames` pictures. The audio, where there is any, settles
/// the encoders: without a resampler, they must take its rate.
pub fn plan_encode(
    input: &Compose,
    n_frames: i64,
    available: &EncoderAvailability,
    audio: Option<&DecodedAudio>,
) -> (r: Result<EncodePlan, String>)
    requires
        n_frames >= 1,
        audio matches Some(d) ==> d.samples() <= MAX_SAMPLES_PER_CH,
    ensures
        ({
            let rate = match audio {
                Some(d) => Some(d.sample_rate),
                None => None,
            };
            match r {
                Ok(plan) => {
                    &&& planned(*available, rate) matches Ok((names, codec))
                    &&& plan.triple@ == names
                    &&& match plan.audio {
                        Some(track) => {
                            &&& audio is Some
                            &&& codec == Some(track.codec_name@)
                            &&& track.samples == audio->Some_0.samples()
                        },
                        None => audio is None,
                    }
                    &&& plan.width == input.width as i32
                    &&& plan.height == input.height as i32
                    &&& plan.fps == (if input.fps == 0 {
                        1
                    } else {
                        input.fps as i32
                    })
                    &&& plan.n_frames == n_frames
                    &&& plan.wf()
                },
                Err(e) => planned(*available, rate) == Err::<
                    (TripleNames, Option<Seq<char>>),
                    Seq<char>,
                >(e@),
            }
        }),
{
    let (triple, track) = match audio {
        Some(decoded) => {
            let plan = plan_audio(decoded.sample_rate, available.opus, available.vorbis)?;
            let triple = available.choose_for_audio(plan.codec_name)?;
            (
                triple,
                Some(
                    AudioTrack { codec_name: plan.codec_name, samples: decoded.total_samples() },
                ),
            )
        },
        None => (available.choose_triple()?, None),
    };
    let fps: u32 = if input.fps == 0 {
        1
    } else {
        input.fps
    };
    #[verifier::truncate]
    let width: i32 = input.width as i32;
    #[verifier::truncate]
    let height: i32 = input.height as i32;
    #[verifier::truncate]
    let fps: i32 = fps as i32;
    Ok(EncodePlan { width, height, fps, n_frames, triple, audio: track })
}

impl EncodePlan {
    /// Whether `states` are those of an encoding from its start on, whose
    /// calls replied `replies` and did not fail.
    pub open spec fn is_run(self, states: Seq<EncodeState>, replies: Seq<i32>) -> bool {
        &&& states.len() == replies.len() + 1
        &&& states[0] == self.first_state()
        &&& forall|i: int|
            0 <= i < replies.len() ==> {
                &&& self.complaint(states[i].stage, #[trigger] replies[i]) is None
                &&& states[i].stage != Stage::Finished
                &&& states[i + 1] == self.state_after(states[i], replies[i])
            }
    }

    /// How far a stage is on the way to the end. The stages that alternate
    /// until all pictures, or all audio frames, are sent are equally far.
    pub open spec fn progress(self, stage: Stage) -> int {
        match stage {
            Stage::FindVideoEncoder => 0,
            Stage::AllocVideoContext => 1,
            Stage::OpenVideoEncoder => 2,
            Stage::FindAudioEncoder => 3,
            Stage::AllocAudioContext => 4,
            Stage::OpenAudioEncoder => 5,
            Stage::ReadFrameSize => 6,
            Stage::AllocSink => 7,
            Stage::AllocOutput => 8,
            Stage::NewVideoStream => 9,
            Stage::CopyVideoParameters => 10,
            Stage::NewAudioStream => 11,
            Stage::CopyAudioParameters => 12,
            Stage::SetMuxOptions => 13,
            Stage::WriteHeader => 14,
            Stage::CreateScaler => 15,
            Stage::AllocPicture => 16,
            Stage::AllocPictureBuffer => 17,
            Stage::ScalePicture => 18,
            Stage::AllocVideoPacket => 19,
            Stage::SendPicture { .. } => 20,
            Stage::FlushVideo => 21,
            Stage::ReceiveVideoPacket { flushed, .. }
            | Stage::WriteVideoPacket { flushed, .. } => if flushed {
                22
            } else {
                20
            },
            Stage::AllocAudioPacket => 23,
            Stage::AllocAudioFrame { .. }
            | Stage::AllocAudioBuffer { .. }
            | Stage::SendAudioFrame { .. } => 24,
            Stage::FlushAudio => 25,
            Stage::ReceiveAudioPacket { flushed, .. }
            | Stage::WriteAudioPacket { flushed, .. } => if flushed {
                26
            } else {
                24
            },
            Stage::WriteTrailer => 27,
            Stage::Finished => 28,
        }
    }

    /// A stage that every encoding passes through.
    pub open spec fn is_milestone(self, stage: Stage) -> bool {
        ||| stage == Stage::FindVideoEncoder
        ||| stage == Stage::AllocVideoContext
        ||| stage == Stage::OpenVideoEncoder
        ||| self.audio is Some && (stage == Stage::FindAudioEncoder || stage
            == Stage::AllocAudioContext || stage == Stage::OpenAudioEncoder || stage
            == Stage::ReadFrameSize || stage == Stage::NewAudioStream || stage
            == Stage::CopyAudioParameters || stage == Stage::AllocAudioPacket || stage
            == Stage::FlushAudio)
        ||| stage == Stage::AllocSink
        ||| stage == Stage::AllocOutput
        ||| stage == Stage::NewVideoStream
        ||| stage == Stage::CopyVideoParameters
        ||| self.triple.container@ == "mp4"@ && stage == Stage::SetMuxOptions
        ||| stage == Stage::WriteHeader
        ||| stage == Stage::CreateScaler
        ||| stage == Stage::AllocPicture
        ||| stage == Stage::AllocPictureBuffer
        ||| stage == Stage::ScalePicture
        ||| stage == Stage::AllocVideoPacket
        ||| stage == Stage::FlushVideo
        ||| stage == Stage::WriteTrailer
    }
}

/// The presentation times of the pictures that are sent in `states`.
pub open spec fn pictures_sent(states: Seq<EncodeState>) -> Seq<int>
    decreases states.len(),
{
    if states.len() == 0 {
        Seq::empty()
    } else {
        let before = pictures_sent(states.drop_last());
        match states.last().stage {
            Stage::SendPicture { pts } => before.push(pts as int),
            _ => before,
        }
    }
}

/// The first samples of the audio frames that are sent in `states`.
pub open spec fn frames_sent(states: Seq<EncodeState>) -> Seq<int>
    decreases states.len(),
{
    if states.len() == 0 {
        Seq::empty()
    } else {
        let before = frames_sent(states.drop_last());
        match states.last().stage {
            Stage::SendAudioFrame { offset } => before.push(offset as int),
            _ => before,
        }
    }
}

/// A run without its last step is a run.
proof fn lemma_shorter_run(plan: EncodePlan, states: Seq<EncodeState>, replies: Seq<i32>)
    requires
        plan.is_run(states, replies),
        replies.len() > 0,
    ensures
        plan.is_run(states.drop_last(), replies.drop_last()),
        states.last() == plan.state_after(states.drop_last().last(), replies.last()),
        plan.complaint(states.drop_last().last().stage, replies.last()) is None,
{
    let last = replies[replies.len() - 1];
    assert(states.drop_last().last() == states[states.len() - 2]);
    assert forall|i: int| 0 <= i < replies.drop_last().len() implies {
        &&& plan.complaint(
            states.drop_last()[i].stage,
            #[trigger] replies.drop_last()[i],
        ) is None
        &&& states.drop_last()[i].stage != Stage::Finished
        &&& states.drop_last()[i + 1] == plan.state_after(
            states.drop_last()[i],
            replies.drop_last()[i],
        )
    } by {
        assert(replies.drop_last()[i] == replies[i]);
        assert(states.drop_last()[i + 1] == states[i + 1]);
    }
}

/// Going on from a state that an encoding can be in leads to one that it can
/// be in.
pub proof fn law_states_stay_admitted(plan: EncodePlan, state: EncodeState, reply: i32)
    requires
        plan.wf(),
        plan.admits(state),
        plan.complaint(state.stage, reply) is None,
    ensures
        plan.admits(plan.state_after(state, reply)),
{
}

/// Every state of a run is one that an encoding can be in.
proof fn lemma_run_admitted(plan: EncodePlan, states: Seq<EncodeState>, replies: Seq<i32>)
    requires
        plan.wf(),
        plan.is_run(states, replies),
    ensures
        plan.admits(states.last()),
    decreases replies.len(),
{
    if replies.len() > 0 {
        lemma_shorter_run(plan, states, replies);
        lemma_run_admitted(plan, states.drop_last(), replies.drop_last());
        law_states_stay_admitted(plan, states.drop_last().last(), replies.last());
    }
}

/// An encoding never goes back: each step is at least as far on the way to the
/// end as the one before.
pub proof fn law_no_step_back(plan: EncodePlan, state: EncodeState, reply: i32)
    requires
        plan.wf(),
        plan.admits(state),
        plan.complaint(state.stage, reply) is None,
    ensures
        plan.progress(plan.state_after(state, reply).stage) >= plan.progress(state.stage),
{
}

/// The number of pictures sent when a run stands at `stage`.
spec fn pictures_by(plan: EncodePlan, stage: Stage) -> int {
    match stage {
        Stage::SendPicture { pts } => pts + 1,
        Stage::ReceiveVideoPacket { sent, .. } => sent as int,
        Stage::WriteVideoPacket { sent, .. } => sent as int,
        _ => if plan.progress(stage) < 20 {
            0
        } else {
            plan.n_frames as int
        },
    }
}

proof fn lemma_pictures(plan: EncodePlan, states: Seq<EncodeState>, replies: Seq<i32>)
    requires
        plan.wf(),
        plan.is_run(states, replies),
    ensures
        pictures_sent(states) == Seq::new(
            pictures_by(plan, states.last().stage) as nat,
            |i: int| i,
        ),
    decreases replies.len(),
{
    if replies.len() > 0 {
        lemma_shorter_run(plan, states, replies);
        lemma_run_admitted(plan, states.drop_last(), replies.drop_last());
        lemma_run_admitted(plan, states, replies);
        lemma_pictures(plan, states.drop_last(), replies.drop_last());
        assert(pictures_sent(states) =~= Seq::new(
            pictures_by(plan, states.last().stage) as nat,
            |i: int| i,
        ));
    } else {
        reveal_with_fuel(pictures_sent, 2);
        assert(pictures_sent(states) =~= Seq::new(
            pictures_by(plan, states.last().stage) as nat,
            |i: int| i,
        ));
    }
}

/// An encoding that finished has sent every picture of the plan exactly once,
/// in the order of their presentation times.
pub proof fn law_every_picture_once_in_order(
    plan: EncodePlan,
    states: Seq<EncodeState>,
    replies: Seq<i32>,
)
    requires
        plan.wf(),
        plan.is_run(states, replies),
        states.last().stage == Stage::Finished,
    ensures
        pictures_sent(states) == Seq::new(plan.n_frames as nat, |i: int| i),
{
    lemma_pictures(plan, states, replies);
}

/// How the audio frames sent stand to the state of a run.
spec fn frames_fit(plan: EncodePlan, state: EncodeState, sent: Seq<int>) -> bool {
    let size = state.frame_size as int;
    let samples = plan.audio->Some_0.samples as int;
    let n = sent.len() as int;
    &&& forall|i: int| 0 <= i < n ==> #[trigger] sent[i] == i * size
    &&& if plan.audio is None || plan.progress(state.stage) < 24 {
        n == 0
    } else {
        match state.stage {
            Stage::AllocAudioFrame { offset } | Stage::AllocAudioBuffer { offset } => n * size
                == offset,
            Stage::SendAudioFrame { offset } => n > 0 && (n - 1) * size == offset,
            Stage::ReceiveAudioPacket { reached, flushed: false }
            | Stage::WriteAudioPacket { reached, flushed: false } => {
                &&& n > 0
                &&& n * size == reached
                &&& (n - 1) * size < samples
            },
            _ => {
                &&& n * size >= samples
                &&& n > 0 ==> (n - 1) * size < samples
            },
        }
    }
}

proof fn lemma_frames_sent(plan: EncodePlan, states: Seq<EncodeState>, replies: Seq<i32>)
    requires
        plan.wf(),
        plan.is_run(states, replies),
    ensures
        frames_fit(plan, states.last(), frames_sent(states)),
    decreases replies.len(),
{
    if replies.len() > 0 {
        let prev = states.drop_last().last();
        let next = states.last();
        lemma_shorter_run(plan, states, replies);
        lemma_run_admitted(plan, states.drop_last(), replies.drop_last());
        lemma_run_admitted(plan, states, replies);
        lemma_frames_sent(plan, states.drop_last(), replies.drop_last());
        let before = frames_sent(states.drop_last());
        let after = frames_sent(states);
        let size = next.frame_size as int;
        let n = before.len() as int;
        assert((n + 1) * size == n * size + size) by (nonlinear_arith);
        assert((n - 1) * size == n * size - size) by (nonlinear_arith);
        assert(0 * size == 0);
        if next.stage is SendAudioFrame {
            assert(after.len() == n + 1);
        } else {
            assert(after == before);
        }
    } else {
        reveal_with_fuel(frames_sent, 2);
    }
}

/// An encoding that finished has sent audio frames that follow one another
/// without gap or overlap from the first sample on and reach to the last
/// sample, with none behind it; without audio it has sent none.
pub proof fn law_every_sample_once_in_order(
    plan: EncodePlan,
    states: Seq<EncodeState>,
    replies: Seq<i32>,
)
    requires
        plan.wf(),
        plan.is_run(states, replies),
        states.last().stage == Stage::Finished,
    ensures
        ({
            let sent = frames_sent(states);
            let size = states.last().frame_size as int;
            match plan.audio {
                Some(track) => {
                    &&& size > 0
                    &&& forall|i: int| 0 <= i < sent.len() ==> #[trigger] sent[i] == i * size
                    &&& sent.len() * size >= track.samples
                    &&& sent.len() > 0 ==> (sent.len() - 1) * size < track.samples
                },
                None => sent.len() == 0,
            }
        }),
{
    lemma_frames_sent(plan, states, replies);
    lemma_run_admitted(plan, states, replies);
}

/// Whatever an encoding does behind a milestone, it has made the milestone's
/// call before: the header is written before any packet, and the trailer only
/// once the video, and the audio where there is any, has been flushed.
pub proof fn law_milestones_are_passed(
    plan: EncodePlan,
    states: Seq<EncodeState>,
    replies: Seq<i32>,
    milestone: Stage,
)
    requires
        plan.wf(),
        plan.is_run(states, replies),
        plan.is_milestone(milestone),
        plan.progress(states.last().stage) > plan.progress(milestone),
    ensures
        exists|i: int| 0 <= i < replies.len() && #[trigger] states[i].stage == milestone,
    decreases replies.len(),
{
    lemma_shorter_run(plan, states, replies);
    let before = states.drop_last();
    lemma_run_admitted(plan, before, replies.drop_last());
    if plan.progress(before.last().stage) > plan.progress(milestone) {
        law_milestones_are_passed(plan, before, replies.drop_last(), milestone);
        let i = choose|i: int|
            0 <= i < replies.drop_last().len() && #[trigger] before[i].stage == milestone;
        assert(states[i].stage == milestone);
    } else {
        assert(states[states.len() - 2].stage == milestone);
    }
}

/// The last call of an encoding that finished is the one that writes the
/// trailer.
pub proof fn law_trailer_comes_last(
    plan: EncodePlan,
    states: Seq<EncodeState>,
    replies: Seq<i32>,
)
    requires
        plan.wf(),
        plan.is_run(states, replies),
        states.last().stage == Stage::Finished,
    ensures
        replies.len() > 0,
        states[states.len() - 2].stage == Stage::WriteTrailer,
{
    lemma_shorter_run(plan, states, replies);
    assert(replies[replies.len() - 1] == replies.last());
}

/// Every packet that an encoder hands out is written before anything else is
/// done, and behind whatever is sent, or flushed, packets are asked for until
/// there are none left.
pub proof fn law_every_packet_is_written(
    plan: EncodePlan,
    states: Seq<EncodeState>,
    replies: Seq<i32>,
    i: int,
)
    requires
        plan.is_run(states, replies),
        0 <= i < replies.len(),
    ensures
        states[i].stage is ReceiveVideoPacket ==> (states[i + 1].stage is WriteVideoPacket
            <==> !drained(replies[i])),
        states[i].stage is ReceiveAudioPacket ==> (states[i + 1].stage is WriteAudioPacket
            <==> !drained(replies[i])),
        states[i].stage is WriteVideoPacket || states[i].stage is SendPicture || states[i].stage
            is FlushVideo ==> states[i + 1].stage is ReceiveVideoPacket,
        states[i].stage is WriteAudioPacket || states[i].stage is SendAudioFrame || states[i].stage
            is FlushAudio ==> states[i + 1].stage is ReceiveAudioPacket,
{
    let reply = replies[i];
}

/// The first states of a run are those of a run.
proof fn lemma_run_up_to(
    plan: EncodePlan,
    states: Seq<EncodeState>,
    replies: Seq<i32>,
    k: int,
)
    requires
        plan.is_run(states, replies),
        0 <= k <= replies.len(),
    ensures
        plan.is_run(states.take(k + 1), replies.take(k)),
        states.take(k + 1).last() == states[k],
{
    let some = states.take(k + 1);
    let few = replies.take(k);
    assert forall|i: int| 0 <= i < few.len() implies {
        &&& plan.complaint(some[i].stage, #[trigger] few[i]) is None
        &&& some[i].stage != Stage::Finished
        &&& some[i + 1] == plan.state_after(some[i], few[i])
    } by {
        assert(few[i] == replies[i]);
        assert(some[i + 1] == states[i + 1]);
    }
}

/// Where a run makes the call of a stage, it has made that of every milestone
/// before that stage, earlier.
pub proof fn law_milestones_come_in_order(
    plan: EncodePlan,
    states: Seq<EncodeState>,
    replies: Seq<i32>,
    milestone: Stage,
    at: int,
)
    requires
        plan.wf(),
        plan.is_run(states, replies),
        plan.is_milestone(milestone),
        0 <= at < states.len(),
        plan.progress(states[at].stage) > plan.progress(milestone),
    ensures
        exists|i: int| 0 <= i < at && #[trigger] states[i].stage == milestone,
{
    lemma_run_up_to(plan, states, replies, at);
    let some = states.take(at + 1);
    law_milestones_are_passed(plan, some, replies.take(at), milestone);
    let i = choose|i: int|
        0 <= i < replies.take(at).len() && #[trigger] some[i].stage == milestone;
    assert(states[i].stage == milestone);
}

/// Before any picture is sent, the screenshot is scaled into the frame that is
/// sent: the header is written, the scaler is created, the frame and then its
/// buffer are allocated, the picture is scaled into it, and a packet is
/// allocated, each before the next.
pub proof fn law_the_screenshot_is_scaled_before_it_is_sent(
    plan: EncodePlan,
    states: Seq<EncodeState>,
    replies: Seq<i32>,
    at: int,
)
    requires
        plan.wf(),
        plan.is_run(states, replies),
        0 <= at < states.len(),
    ensures
        states[at].stage is SendPicture ==> exists|i: int|
            0 <= i < at && #[trigger] states[i].stage == Stage::ScalePicture,
        states[at].stage is SendPicture ==> exists|i: int|
            0 <= i < at && #[trigger] states[i].stage == Stage::AllocVideoPacket,
        states[at].stage == Stage::AllocVideoPacket ==> exists|i: int|
            0 <= i < at && #[trigger] states[i].stage == Stage::ScalePicture,
        states[at].stage == Stage::ScalePicture ==> exists|i: int|
            0 <= i < at && #[trigger] states[i].stage == Stage::AllocPictureBuffer,
        states[at].stage == Stage::AllocPictureBuffer ==> exists|i: int|
            0 <= i < at && #[trigger] states[i].stage == Stage::AllocPicture,
        states[at].stage == Stage::AllocPicture ==> exists|i: int|
            0 <= i < at && #[trigger] states[i].stage == Stage::CreateScaler,
        states[at].stage == Stage::CreateScaler ==> exists|i: int|
            0 <= i < at && #[trigger] states[i].stage == Stage::WriteHeader,
{
    if states[at].stage is SendPicture {
        law_milestones_come_in_order(plan, states, replies, Stage::ScalePicture, at);
    }
    if states[at].stage is SendPicture {
        law_milestones_come_in_order(plan, states, replies, Stage::AllocVideoPacket, at);
    }
    if states[at].stage == Stage::AllocVideoPacket {
        law_milestones_come_in_order(plan, states, replies, Stage::ScalePicture, at);
    }
    if states[at].stage == Stage::ScalePicture {
        law_milestones_come_in_order(plan, states, replies, Stage::AllocPictureBuffer, at);
    }
    if states[at].stage == Stage::AllocPictureBuffer {
        law_milestones_come_in_order(plan, states, replies, Stage::AllocPicture, at);
    }
    if states[at].stage == Stage::AllocPicture {
        law_milestones_come_in_order(plan, states, replies, Stage::CreateScaler, at);
    }
    if states[at].stage == Stage::CreateScaler {
        law_milestones_come_in_order(plan, states, replies, Stage::WriteHeader, at);
    }
}

/// Before the header is written, the video encoder is found, given a context
/// and opened, the output is allocated, and the video stream is declared with
/// the encoder's parameters, each before the next; so it is with the audio,
/// where there is any, and an MP4 muxer has got its options.
pub proof fn law_streams_are_declared_before_the_header(
    plan: EncodePlan,
    states: Seq<EncodeState>,
    replies: Seq<i32>,
    at: int,
)
    requires
        plan.wf(),
        plan.is_run(states, replies),
        0 <= at < states.len(),
    ensures
        states[at].stage == Stage::WriteHeader ==> exists|i: int|
            0 <= i < at && #[trigger] states[i].stage == Stage::CopyVideoParameters,
        states[at].stage == Stage::CopyVideoParameters ==> exists|i: int|
            0 <= i < at && #[trigger] states[i].stage == Stage::NewVideoStream,
        states[at].stage == Stage::NewVideoStream ==> exists|i: int|
            0 <= i < at && #[trigger] states[i].stage == Stage::AllocOutput,
        states[at].stage == Stage::AllocOutput ==> exists|i: int|
            0 <= i < at && #[trigger] states[i].stage == Stage::AllocSink,
        states[at].stage == Stage::AllocSink ==> exists|i: int|
            0 <= i < at && #[trigger] states[i].stage == Stage::OpenVideoEncoder,
        states[at].stage == Stage::OpenVideoEncoder ==> exists|i: int|
            0 <= i < at && #[trigger] states[i].stage == Stage::AllocVideoContext,
        states[at].stage == Stage::AllocVideoContext ==> exists|i: int|
            0 <= i < at && #[trigger] states[i].stage == Stage::FindVideoEncoder,
        plan.triple.container@ == "mp4"@ && states[at].stage == Stage::WriteHeader ==> exists|i: int|
            0 <= i < at && #[trigger] states[i].stage == Stage::SetMuxOptions,
        plan.audio is Some && states[at].stage == Stage::WriteHeader ==> exists|i: int|
            0 <= i < at && #[trigger] states[i].stage == Stage::CopyAudioParameters,
        plan.audio is Some && states[at].stage == Stage::CopyAudioParameters ==> exists|i: int|
            0 <= i < at && #[trigger] states[i].stage == Stage::NewAudioStream,
        plan.audio is Some && states[at].stage == Stage::AllocSink ==> exists|i: int|
            0 <= i < at && #[trigger] states[i].stage == Stage::ReadFrameSize,
        plan.audio is Some && states[at].stage == Stage::ReadFrameSize ==> exists|i: int|
            0 <= i < at && #[trigger] states[i].stage == Stage::OpenAudioEncoder,
        plan.audio is Some && states[at].stage == Stage::OpenAudioEncoder ==> exists|i: int|
            0 <= i < at && #[trigger] states[i].stage == Stage::AllocAudioContext,
        plan.audio is Some && states[at].stage == Stage::AllocAudioContext ==> exists|i: int|
            0 <= i < at && #[trigger] states[i].stage == Stage::FindAudioEncoder,
        plan.audio is Some && states[at].stage == Stage::NewAudioStream ==> exists|i: int|
            0 <= i < at && #[trigger] states[i].stage == Stage::AllocSink,
{
    if states[at].stage == Stage::WriteHeader {
        law_milestones_come_in_order(plan, states, replies, Stage::CopyVideoParameters, at);
    }
    if states[at].stage == Stage::CopyVideoParameters {
        law_milestones_come_in_order(plan, states, replies, Stage::NewVideoStream, at);
    }
    if states[at].stage == Stage::NewVideoStream {
        law_milestones_come_in_order(plan, states, replies, Stage::AllocOutput, at);
    }
    if states[at].stage == Stage::AllocOutput {
        law_milestones_come_in_order(plan, states, replies, Stage::AllocSink, at);
    }
    if states[at].stage == Stage::AllocSink {
        law_milestones_come_in_order(plan, states, replies, Stage::OpenVideoEncoder, at);
    }
    if states[at].stage == Stage::OpenVideoEncoder {
        law_milestones_come_in_order(plan, states, replies, Stage::AllocVideoContext, at);
    }
    if states[at].stage == Stage::AllocVideoContext {
        law_milestones_come_in_order(plan, states, replies, Stage::FindVideoEncoder, at);
    }
    if plan.triple.container@ == "mp4"@ && states[at].stage == Stage::WriteHeader {
        law_milestones_come_in_order(plan, states, replies, Stage::SetMuxOptions, at);
    }
    if plan.audio is Some && states[at].stage == Stage::WriteHeader {
        law_milestones_come_in_order(plan, states, replies, Stage::CopyAudioParameters, at);
    }
    if plan.audio is Some && states[at].stage == Stage::CopyAudioParameters {
        law_milestones_come_in_order(plan, states, replies, Stage::NewAudioStream, at);
    }
    if plan.audio is Some && states[at].stage == Stage::AllocSink {
        law_milestones_come_in_order(plan, states, replies, Stage::ReadFrameSize, at);
    }
    if plan.audio is Some && states[at].stage == Stage::ReadFrameSize {
        law_milestones_come_in_order(plan, states, replies, Stage::OpenAudioEncoder, at);
    }
    if plan.audio is Some && states[at].stage == Stage::OpenAudioEncoder {
        law_milestones_come_in_order(plan, states, replies, Stage::AllocAudioContext, at);
    }
    if plan.audio is Some && states[at].stage == Stage::AllocAudioContext {
        law_milestones_come_in_order(plan, states, replies, Stage::FindAudioEncoder, at);
    }
    if plan.audio is Some && states[at].stage == Stage::NewAudioStream {
        law_milestones_come_in_order(plan, states, replies, Stage::AllocSink, at);
    }
}

/// Each frame of audio is allocated, and its buffer, right before it is sent;
/// and the trailer is written only after the video is flushed, and the audio,
/// where there is any.
pub proof fn law_frames_are_allocated_and_encoders_flushed(
    plan: EncodePlan,
    states: Seq<EncodeState>,
    replies: Seq<i32>,
    at: int,
)
    requires
        plan.wf(),
        plan.is_run(states, replies),
        0 <= at < states.len(),
    ensures
        states[at].stage matches Stage::SendAudioFrame { offset } ==> {
            &&& at >= 2
            &&& states[at - 1].stage == (Stage::AllocAudioBuffer { offset })
            &&& states[at - 2].stage == (Stage::AllocAudioFrame { offset })
        },
        states[at].stage == Stage::WriteTrailer ==> {
            &&& exists|i: int| 0 <= i < at && #[trigger] states[i].stage == Stage::FlushVideo
            &&& plan.audio is Some ==> exists|i: int|
                0 <= i < at && #[trigger] states[i].stage == Stage::FlushAudio
        },
{
    if let Stage::SendAudioFrame { offset } = states[at].stage {
        lemma_run_up_to(plan, states, replies, at);
        lemma_run_admitted(plan, states.take(at + 1), replies.take(at));
        assert(at > 0);
        let r = replies[at - 1];
        assert(states[at - 1].stage == (Stage::AllocAudioBuffer { offset }));
        assert(at > 1);
        let q = replies[at - 2];
    }
    if states[at].stage == Stage::WriteTrailer {
        law_milestones_come_in_order(plan, states, replies, Stage::FlushVideo, at);
        if plan.audio is Some {
            law_milestones_come_in_order(plan, states, replies, Stage::FlushAudio, at);
        }
    }
}

/// A call that succeeds never ends an encoding. One that fails always does,
/// with four exceptions: reading the frame size and scaling have no failure,
/// the replies to the flushes do not count, and a receive call may reply that
/// it has nothing to hand out.
pub proof fn law_exactly_failures_end_an_encoding(plan: EncodePlan, stage: Stage, reply: i32)
    ensures
        reply >= 0 ==> plan.complaint(stage, reply) is None,
        stage == Stage::ReadFrameSize || stage == Stage::ScalePicture || stage == Stage::FlushVideo
            || stage == Stage::FlushAudio || stage == Stage::Finished ==> plan.complaint(
            stage,
            reply,
        ) is None,
        stage is ReceiveVideoPacket || stage is ReceiveAudioPacket ==> (plan.complaint(
            stage,
            reply,
        ) is Some <==> reply < 0 && reply != -6 && reply != -541_478_725),
        reply < 0 && !(stage == Stage::ReadFrameSize || stage == Stage::ScalePicture || stage
            == Stage::FlushVideo || stage == Stage::FlushAudio || stage == Stage::Finished || stage
            is ReceiveVideoPacket || stage is ReceiveAudioPacket) ==> plan.complaint(
            stage,
            reply,
        ) is Some,
{
}

/// A failure names what failed: the encoder or the container that was wanted,
/// and the code of a call that replies with one.
pub proof fn law_failures_name_what_failed(plan: EncodePlan, reply: i32, n: i64, m: usize, f: bool)
    requires
        reply < 0,
        reply != -6,
        reply != -541_478_725,
    ensures
        ends_after(plan.complaint(Stage::FindVideoEncoder, reply), "video encoder "@,
            plan.triple.video@, " not found in this build"@),
        ends_after(plan.complaint(Stage::OpenVideoEncoder, reply), "could not open "@,
            plan.triple.video@, " encoder"@),
        ends_after(plan.complaint(Stage::AllocOutput, reply), "could not allocate "@,
            plan.triple.container@, " output context"@),
        plan.audio matches Some(track) ==> ends_after(
            plan.complaint(Stage::FindAudioEncoder, reply), "audio encoder "@, track.codec_name@,
            " not found"@) && ends_after(plan.complaint(Stage::OpenAudioEncoder, reply),
            "could not open "@, track.codec_name@, " encoder"@),
        ends_after(plan.complaint(Stage::WriteHeader, reply),
            "avformat_write_header failed (ffmpeg error "@, signed_decimal(reply as int), ")"@),
        ends_after(plan.complaint(Stage::SendPicture { pts: n }, reply),
            "avcodec_send_frame failed (ffmpeg error "@, signed_decimal(reply as int), ")"@),
        ends_after(plan.complaint(Stage::ReceiveVideoPacket { sent: n, flushed: f }, reply),
            "avcodec_receive_packet failed (ffmpeg error "@, signed_decimal(reply as int), ")"@),
        ends_after(plan.complaint(Stage::SendAudioFrame { offset: m }, reply),
            "audio send_frame failed (ffmpeg error "@, signed_decimal(reply as int), ")"@),
        ends_after(plan.complaint(Stage::ReceiveAudioPacket { reached: m, flushed: f }, reply),
            "audio receive_packet failed (ffmpeg error "@, signed_decimal(reply as int), ")"@),
{
    reveal_strlit("avformat_write_header failed");
    reveal_strlit("avformat_write_header failed (ffmpeg error ");
    reveal_strlit("avcodec_send_frame failed");
    reveal_strlit("avcodec_send_frame failed (ffmpeg error ");
    reveal_strlit("avcodec_receive_packet failed");
    reveal_strlit("avcodec_receive_packet failed (ffmpeg error ");
    reveal_strlit("audio send_frame failed");
    reveal_strlit("audio send_frame failed (ffmpeg error ");
    reveal_strlit("audio receive_packet failed");
    reveal_strlit("audio receive_packet failed (ffmpeg error ");
    reveal_strlit(" (ffmpeg error ");
    assert("avformat_write_header failed"@ + " (ffmpeg error "@ =~= "avformat_write_header failed (ffmpeg error "@);
    assert("avcodec_send_frame failed"@ + " (ffmpeg error "@ =~= "avcodec_send_frame failed (ffmpeg error "@);
    assert("avcodec_receive_packet failed"@ + " (ffmpeg error "@ =~= "avcodec_receive_packet failed (ffmpeg error "@);
    assert("audio send_frame failed"@ + " (ffmpeg error "@ =~= "audio send_frame failed (ffmpeg error "@);
    assert("audio receive_packet failed"@ + " (ffmpeg error "@ =~= "audio receive_packet failed (ffmpeg error "@);
}

/// Whether a failure reads as a head, a text and a tail.
pub open spec fn ends_after(
    failure: Option<Seq<char>>,
    head: Seq<char>,
    text: Seq<char>,
    tail: Seq<char>,
) -> bool {
    failure == Some(head + text + tail)
}

/// The frame size is the one that the audio encoder publishes, or 1024 where it
/// publishes none, and nothing else changes it.
pub proof fn law_the_published_frame_size_is_kept(
    plan: EncodePlan,
    state: EncodeState,
    reply: i32,
)
    ensures
        state.stage == Stage::ReadFrameSize && reply > 0 ==> plan.state_after(
            state,
            reply,
        ).frame_size == reply,
        state.stage == Stage::ReadFrameSize && reply <= 0 ==> plan.state_after(
            state,
            reply,
        ).frame_size == 1024,
        state.stage != Stage::ReadFrameSize ==> plan.state_after(state, reply).frame_size
            == state.frame_size,
{
}

/// The bit rate is half the number of pixels, rounded towards zero.
pub proof fn law_bit_rate_is_half_the_pixels(pixels: int)
    ensures
        pixels >= 0 ==> 2 * halved(pixels) <= pixels < 2 * halved(pixels) + 2,
        pixels <= 0 ==> 2 * halved(pixels) - 2 < pixels <= 2 * halved(pixels),
{
}

/// Without audio a video is planned exactly if the build has VP9 with Opus, or
/// MPEG-4 or AV1 with AAC.
pub proof fn law_silent_videos_need_a_pair(a: EncoderAvailability)
    ensures
        planned(a, None) is Ok <==> (a.vp9 && a.opus) || (a.aac && (a.mpeg4 || a.av1)),
        planned(a, None) matches Ok((t, codec)) ==> codec is None,
{
}

/// With audio a video is planned exactly if the build has VP9 and an audio
/// encoder for the rate: Vorbis, or Opus for the rates that it takes, which
/// goes first. It is WebM, and its audio is that of the encoder.
pub proof fn law_videos_with_audio_need_vp9(a: EncoderAvailability, rate: i32)
    ensures
        ({
            let opus = a.opus && (rate == 8000 || rate == 12000 || rate == 16000 || rate == 24000
                || rate == 48000);
            &&& planned(a, Some(rate)) is Ok <==> a.vp9 && (opus || a.vorbis)
            &&& planned(a, Some(rate)) matches Ok((t, codec)) ==> {
                &&& codec == Some(t.audio)
                &&& t.audio == if opus { "opus"@ } else { "vorbis"@ }
                &&& t.video == "libvpx-vp9"@
                &&& t.container == "webm"@
                &&& t.mime_type == "video/webm"@
            }
        }),
{
}

/// What is reported of a video's audio is the codec of its track, or that there
/// is none.
pub proof fn law_reported_audio_is_the_tracks(plan: EncodePlan)
    ensures
        plan.audio matches Some(track) ==> plan.reported_audio() == track.codec_name@,
        plan.audio is None ==> plan.reported_audio() == "none"@,
        plan.in_mp4() <==> plan.triple.container@ == "mp4"@,
{
}

/// Where the decoding of a screenshot stands after some calls.
pub open spec fn image_after(state: ImageDecoding, replies: Seq<i32>) -> Result<
    ImageDecoding,
    Seq<char>,
>
    decreases replies.len(),
{
    if replies.len() == 0 {
        Ok(state)
    } else {
        match image_after(state, replies.drop_last()) {
            Ok(next) => image_outcome(next, replies.last()),
            Err(e) => Err(e),
        }
    }
}

/// A screenshot that a format takes is decoded by it: the decoder is found, its
/// context allocated and opened, a packet allocated and sent, and a frame
/// allocated and received, in this order.
pub proof fn law_screenshots_are_decoded(
    state: ImageDecoding,
    a: i32,
    b: i32,
    c: i32,
    d: i32,
    e: i32,
    f: i32,
)
    requires
        state.step == ImageStep::FindDecoder,
        a >= 0,
        b >= 0,
        c >= 0,
        d >= 0,
        e >= 0,
        f >= 0,
    ensures
        image_after(state, seq![a]) == Ok::<ImageDecoding, Seq<char>>(
            ImageDecoding { codec: state.codec, step: ImageStep::AllocContext },
        ),
        image_after(state, seq![a, b]) == Ok::<ImageDecoding, Seq<char>>(
            ImageDecoding { codec: state.codec, step: ImageStep::Open },
        ),
        image_after(state, seq![a, b, c]) == Ok::<ImageDecoding, Seq<char>>(
            ImageDecoding { codec: state.codec, step: ImageStep::AllocPacket },
        ),
        image_after(state, seq![a, b, c, d]) == Ok::<ImageDecoding, Seq<char>>(
            ImageDecoding { codec: state.codec, step: ImageStep::SendPacket },
        ),
        image_after(state, seq![a, b, c, d, e]) == Ok::<ImageDecoding, Seq<char>>(
            ImageDecoding { codec: state.codec, step: ImageStep::AllocFrame },
        ),
        image_after(state, seq![a, b, c, d, e, f]) == Ok::<ImageDecoding, Seq<char>>(
            ImageDecoding { codec: state.codec, step: ImageStep::ReceiveFrame },
        ),
        image_after(state, seq![a, b, c, d, e, f, 0]) == Ok::<ImageDecoding, Seq<char>>(
            ImageDecoding { codec: state.codec, step: ImageStep::Decoded },
        ),
{
    reveal_with_fuel(image_after, 8);
    assert(seq![a].drop_last() =~= seq![]);
    assert(seq![a, b].drop_last() =~= seq![a]);
    assert(seq![a, b, c].drop_last() =~= seq![a, b]);
    assert(seq![a, b, c, d].drop_last() =~= seq![a, b, c]);
    assert(seq![a, b, c, d, e].drop_last() =~= seq![a, b, c, d]);
    assert(seq![a, b, c, d, e, f].drop_last() =~= seq![a, b, c, d, e]);
    assert(seq![a, b, c, d, e, f, 0].drop_last() =~= seq![a, b, c, d, e, f]);
}

/// Where a format does not take the screenshot, PNG is followed by JPEG, and
/// JPEG by the failure of the whole; a failed allocation ends it at once.
pub proof fn law_formats_are_tried_in_turn(state: ImageDecoding, reply: i32)
    ensures
        ({
            let untaken = (reply < 0 && (state.step == ImageStep::FindDecoder || state.step
                == ImageStep::Open || state.step == ImageStep::SendPacket)) || (reply != 0
                && state.step == ImageStep::ReceiveFrame);
            let unallocated = reply < 0 && (state.step == ImageStep::AllocContext || state.step
                == ImageStep::AllocPacket || state.step == ImageStep::AllocFrame);
            &&& untaken && state.codec == ImageCodec::Png ==> image_outcome(state, reply) == Ok::<
                ImageDecoding,
                Seq<char>,
            >(ImageDecoding { codec: ImageCodec::Mjpeg, step: ImageStep::FindDecoder })
            &&& untaken && state.codec == ImageCodec::Mjpeg ==> image_outcome(state, reply)
                == Err::<ImageDecoding, Seq<char>>("could not decode screenshot as PNG or JPEG"@)
            &&& unallocated ==> image_outcome(state, reply) is Err
            &&& image_outcome(state, reply) is Err ==> unallocated || untaken
        }),
{
}

/// The failure of a call that has no name or code to tell reads as the call
/// that failed.
pub proof fn law_failures_tell_the_call(plan: EncodePlan, reply: i32, n: i64, m: usize, f: bool)
    requires
        reply < 0,
    ensures
        plan.complaint(Stage::AllocVideoContext, reply) == Some("avcodec_alloc_context3 (video) returned null"@),
        plan.complaint(Stage::AllocAudioContext, reply) == Some("avcodec_alloc_context3 (audio) returned null"@),
        plan.complaint(Stage::AllocSink, reply) == Some("avio_alloc_context returned null"@),
        plan.complaint(Stage::NewVideoStream, reply) == Some("avformat_new_stream returned null"@),
        plan.complaint(Stage::CopyVideoParameters, reply) == Some("avcodec_parameters_from_context failed"@),
        plan.complaint(Stage::NewAudioStream, reply) == Some("avformat_new_stream (audio) returned null"@),
        plan.complaint(Stage::CopyAudioParameters, reply) == Some("avcodec_parameters_from_context (audio) failed"@),
        plan.complaint(Stage::SetMuxOptions, reply) == Some("could not set fragmented MP4 options"@),
        plan.complaint(Stage::CreateScaler, reply) == Some("sws_getContext returned null"@),
        plan.complaint(Stage::AllocPicture, reply) == Some("av_frame_alloc (yuv) returned null"@),
        plan.complaint(Stage::AllocPictureBuffer, reply) == Some("av_frame_get_buffer failed"@),
        plan.complaint(Stage::AllocVideoPacket, reply) == Some("av_packet_alloc (mux) returned null"@),
        plan.complaint(Stage::WriteVideoPacket { sent: n, flushed: f }, reply) == Some("av_interleaved_write_frame failed"@),
        plan.complaint(Stage::AllocAudioPacket, reply) == Some("av_packet_alloc (audio) returned null"@),
        plan.complaint(Stage::AllocAudioFrame { offset: m }, reply) == Some("av_frame_alloc (audio) returned null"@),
        plan.complaint(Stage::AllocAudioBuffer { offset: m }, reply) == Some("av_frame_get_buffer (audio) failed"@),
        plan.complaint(Stage::WriteAudioPacket { reached: m, flushed: f }, reply) == Some("audio interleaved_write_frame failed"@),
        plan.complaint(Stage::WriteTrailer, reply) == Some("av_write_trailer failed"@),
{
}

/// An encoding begins with the search for the video encoder, when no frame size
/// is known yet.
pub proof fn law_encodings_begin_with_the_encoder(plan: EncodePlan)
    ensures
        plan.first_state().stage == Stage::FindVideoEncoder,
        plan.first_state().frame_size == 0,
{
}

/// The failure of an allocation, on the way to the screenshot's picture, reads
/// as the call that failed.
pub proof fn law_image_failures_tell_the_call(state: ImageDecoding, reply: i32)
    requires
        reply < 0,
    ensures
        state.step == ImageStep::AllocContext ==> image_outcome(state, reply) == Err::<
            ImageDecoding,
            Seq<char>,
        >("avcodec_alloc_context3 (image decoder) returned null"@),
        state.step == ImageStep::AllocPacket ==> image_outcome(state, reply) == Err::<
            ImageDecoding,
            Seq<char>,
        >("av_packet_alloc returned null"@),
        state.step == ImageStep::AllocFrame ==> image_outcome(state, reply) == Err::<
            ImageDecoding,
            Seq<char>,
        >("av_frame_alloc returned null"@),
{
}

/// A video without audio is of the triple that is preferred. A plan that fails
/// says which encoders the build has, or why no audio encoder will do.
pub proof fn law_plans_take_the_preferred_triple(a: EncoderAvailability, rate: i32)
    ensures
        planned(a, None) matches Ok((t, codec)) ==> a.preferred() == Some(t),
        planned(a, None) matches Err(e) ==> e
            == "no usable (video,audio) encoder pair in this ffmpeg build: "@ + a.text(),
        planned_audio(rate, a.opus, a.vorbis) matches Err(e) ==> planned(a, Some(rate)) == Err::<
            (TripleNames, Option<Seq<char>>),
            Seq<char>,
        >(e),
        planned_audio(rate, a.opus, a.vorbis) matches Ok(codec) ==> a.preferred_for(codec) is None
            ==> planned(a, Some(rate)) == Err::<(TripleNames, Option<Seq<char>>), Seq<char>>(
            "no compatible video/container pair for audio codec "@ + codec,
        ),
{
}

/// What is finished stays finished: an encoding behind its trailer, and the
/// decoding of a screenshot that has its picture.
pub proof fn law_the_finished_stays_finished(plan: EncodePlan, state: EncodeState, reply: i32)
    ensures
        state.stage == Stage::WriteTrailer ==> plan.stage_after(state, reply) == Stage::Finished,
        state.stage == Stage::Finished ==> plan.state_after(state, reply) == state,
        forall|image: ImageDecoding|
            image.step == ImageStep::Decoded ==> #[trigger] image_outcome(image, reply) == Ok::<
                ImageDecoding,
                Seq<char>,
            >(image),
{
}

}

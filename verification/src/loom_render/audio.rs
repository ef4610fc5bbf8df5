//! The audio track: decoding an MP3 into planes of samples, choosing an audio
//! encoder that needs no resampling, and cutting the planes into frames.
//!
//! A sample is a single-precision number and is held here as its bits.
use vstd::prelude::*;

use crate::loom_render::ffmpeg::{drained, is_drained, FLTP};
use crate::text::{joined3, same_text, signed_decimal, signed_text};

verus! {

/// The most samples that one channel may hold: fifteen minutes at 48 kHz.
pub const MAX_SAMPLES_PER_CH: usize = 43_200_000;

/// The samples of each plane.
pub open spec fn planes_of(planes: Seq<Vec<u32>>) -> Seq<Seq<u32>> {
    Seq::new(planes.len(), |c: int| planes[c]@)
}

/// Whether all planes have the same length.
pub open spec fn even(planes: Seq<Seq<u32>>) -> bool {
    forall|c: int, d: int|
        0 <= c < planes.len() && 0 <= d < planes.len() ==> (#[trigger] planes[c]).len() == (
        #[trigger] planes[d]).len()
}

/// The sample rates that Opus takes.
pub open spec fn opus_rate(rate: i32) -> bool {
    rate == 8000 || rate == 12000 || rate == 16000 || rate == 24000 || rate == 48000
}

/// Whether Opus takes the sample rate.
pub fn opus_ok(rate: i32) -> (r: bool)
    ensures
        r == opus_rate(rate),
{
    matches!(rate, 8000 | 12000 | 16000 | 24000 | 48000)
}

/// Fully decoded audio: one plane of samples for each channel.
pub struct DecodedAudio {
    pub planes: Vec<Vec<u32>>,
    pub sample_rate: i32,
    pub channels: i32,
}

impl DecodedAudio {
    /// The number of samples in the first plane; none without a plane.
    pub open spec fn samples(self) -> nat {
        if self.planes@.len() == 0 {
            0
        } else {
            self.planes@[0]@.len()
        }
    }

    /// The number of samples in the first plane; none without a plane.
    pub fn total_samples(&self) -> (r: usize)
        ensures
            r == self.samples(),
    {
        if self.planes.len() == 0 {
            0
        } else {
            self.planes[0].len()
        }
    }
}

/// One frame as the decoder hands it out: a plane for each channel.
pub struct DecodedFrame {
    pub format: i32,
    pub sample_rate: i32,
    pub planes: Vec<Vec<u32>>,
}

/// The number of bytes of the ID3v2 tag with which `bytes` begin: ten for its
/// header, the size that the header states in four groups of seven bits, and
/// ten more where the header announces a footer; none where there is no tag.
pub open spec fn id3v2_len(bytes: Seq<u8>) -> int {
    if bytes.len() >= 10 && bytes[0] == 0x49 && bytes[1] == 0x44 && bytes[2] == 0x33 {
        let size = (bytes[6] % 128) * 2097152 + (bytes[7] % 128) * 16384 + (bytes[8] % 128) * 128
            + bytes[9] % 128;
        let footer: int = if (bytes[5] / 16) % 2 == 1 {
            10
        } else {
            0
        };
        if 10 + size + footer <= bytes.len() {
            10 + size + footer
        } else {
            bytes.len() as int
        }
    } else {
        0
    }
}

/// Where the audio of an MP3 begins: behind a leading ID3v2 tag, which the
/// decoder does not take.
pub fn audio_start(bytes: &[u8]) -> (r: usize)
    ensures
        r == id3v2_len(bytes@),
        r <= bytes@.len(),
{
    if bytes.len() >= 10 && bytes[0] == 0x49 && bytes[1] == 0x44 && bytes[2] == 0x33 {
        let size: u64 = (bytes[6] % 128) as u64 * 2097152 + (bytes[7] % 128) as u64 * 16384 + (
        bytes[8] % 128) as u64 * 128 + (bytes[9] % 128) as u64;
        let footer: u64 = if (bytes[5] / 16) % 2 == 1 {
            10
        } else {
            0
        };
        let whole: u64 = 10 + size + footer;
        if whole <= bytes.len() as u64 {
            whole as usize
        } else {
            bytes.len()
        }
    } else {
        0
    }
}

/// The next thing to do with the MP3 decoder. Each step is answered with the
/// reply of the call; a pointer that came back null is answered with -1.
#[derive(Debug, Clone, Copy, PartialEq, Eq, Structural)]
pub enum Mp3Step {
    FindDecoder,
    AllocContext,
    Open,
    AllocPacket,
    AllocFrame,
    SendPacket,
    Flush,
    ReceiveFrame,
    /// A frame was received: hand it over.
    TakeFrame,
    Done,
}

/// What the decoder calls have brought so far.
pub struct Mp3Decoding {
    pub step: Mp3Step,
    pub planes: Vec<Vec<u32>>,
    pub sample_rate: i32,
    pub channels: i32,
}

/// What ends the decoding at `step` when the call replies `reply`.
pub open spec fn mp3_complaint(step: Mp3Step, reply: i32) -> Option<Seq<char>> {
    if reply >= 0 {
        None
    } else {
        match step {
            Mp3Step::FindDecoder => Some("mp3 decoder not present in this build"@),
            Mp3Step::AllocContext => Some("avcodec_alloc_context3 (mp3) returned null"@),
            Mp3Step::Open => Some("could not open mp3 decoder"@),
            Mp3Step::AllocPacket => Some("av_packet_alloc (mp3) returned null"@),
            Mp3Step::AllocFrame => Some("av_frame_alloc (mp3) returned null"@),
            Mp3Step::SendPacket => Some("mp3 decode: send_packet failed"@),
            Mp3Step::Flush => None,
            Mp3Step::ReceiveFrame => if drained(reply) {
                None
            } else {
                Some(
                    "mp3 decode: receive_frame failed ("@ + signed_decimal(reply as int) + ")"@,
                )
            },
            Mp3Step::TakeFrame => None,
            Mp3Step::Done => None,
        }
    }
}

/// What is to be done after `step`, whose call replied `reply`. A frame that
/// was received waits until it is taken.
pub open spec fn mp3_next(step: Mp3Step, reply: i32) -> Mp3Step {
    match step {
        Mp3Step::FindDecoder => Mp3Step::AllocContext,
        Mp3Step::AllocContext => Mp3Step::Open,
        Mp3Step::Open => Mp3Step::AllocPacket,
        Mp3Step::AllocPacket => Mp3Step::AllocFrame,
        Mp3Step::AllocFrame => Mp3Step::SendPacket,
        Mp3Step::SendPacket => Mp3Step::Flush,
        Mp3Step::Flush => Mp3Step::ReceiveFrame,
        Mp3Step::ReceiveFrame => if drained(reply) {
            Mp3Step::Done
        } else {
            Mp3Step::TakeFrame
        },
        Mp3Step::TakeFrame => Mp3Step::TakeFrame,
        Mp3Step::Done => Mp3Step::Done,
    }
}

/// The planes before the first frame that has `channels` planes is added.
pub open spec fn opened(planes: Seq<Seq<u32>>, channels: nat) -> Seq<Seq<u32>> {
    if planes.len() == 0 {
        Seq::new(channels, |c: int| Seq::empty())
    } else {
        planes
    }
}

/// The planes with the samples of a frame behind their own.
pub open spec fn extended(planes: Seq<Seq<u32>>, frame: Seq<Seq<u32>>) -> Seq<Seq<u32>> {
    Seq::new(planes.len(), |c: int| planes[c] + frame[c])
}

/// Whether a frame has the same number of samples for each of the planes. What
/// it has beyond them is left out.
pub open spec fn matches_layout(planes: Seq<Seq<u32>>, frame: Seq<Seq<u32>>) -> bool {
    &&& planes.len() <= i32::MAX
    &&& planes.len() <= frame.len()
    &&& forall|c: int|
        0 <= c < planes.len() ==> (#[trigger] frame[c]).len() == frame[0].len()
}

/// Whether every plane stays within the ceiling once the frame is added.
pub open spec fn fits(planes: Seq<Seq<u32>>, frame: Seq<Seq<u32>>) -> bool {
    forall|c: int|
        0 <= c < planes.len() && c < frame.len() ==> (#[trigger] planes[c]).len() + frame[c].len()
            <= MAX_SAMPLES_PER_CH
}

impl Mp3Decoding {
    /// There is a plane for each channel, all have the same length, and none
    /// is over the ceiling.
    pub open spec fn wf(self) -> bool {
        &&& self.channels == self.planes@.len()
        &&& even(planes_of(self.planes@))
        &&& forall|c: int|
            0 <= c < self.planes@.len() ==> (#[trigger] self.planes@[c])@.len()
                <= MAX_SAMPLES_PER_CH
    }

    /// The planes that a frame is added to: those there are, or empty ones for
    /// the channels of the first frame.
    pub open spec fn base(self, frame: DecodedFrame) -> Seq<Seq<u32>> {
        opened(planes_of(self.planes@), frame.planes@.len())
    }

    /// Why a frame is not added, where it is not.
    pub open spec fn refusal(self, frame: DecodedFrame) -> Option<Seq<char>> {
        if frame.format != FLTP {
            Some(
                "mp3 decoder produced sample format "@ + signed_decimal(frame.format as int)
                    + " (expected FLTP 8); no resampler is available to convert it"@,
            )
        } else if !fits(self.base(frame), planes_of(frame.planes@)) {
            Some("audio track exceeds the 15-minute decode ceiling"@)
        } else if !matches_layout(self.base(frame), planes_of(frame.planes@)) {
            Some("mp3 decoder produced a frame that lacks samples for some channel"@)
        } else {
            None
        }
    }

    /// Whether `next` is the state with a frame added.
    pub open spec fn with_frame(self, frame: DecodedFrame, next: Mp3Decoding) -> bool {
        &&& next.step == Mp3Step::ReceiveFrame
        &&& planes_of(next.planes@) == extended(self.base(frame), planes_of(frame.planes@))
        &&& next.sample_rate == (if self.planes@.len() == 0 {
            frame.sample_rate
        } else {
            self.sample_rate
        })
        &&& next.channels == self.base(frame).len()
    }

    /// Before the first call.
    pub fn start() -> (r: Mp3Decoding)
        ensures
            r.wf(),
            r.step == Mp3Step::FindDecoder,
            planes_of(r.planes@) == Seq::<Seq<u32>>::empty(),
            r.sample_rate == 0,
            r.channels == 0,
    {
        let r = Mp3Decoding {
            step: Mp3Step::FindDecoder,
            planes: Vec::new(),
            sample_rate: 0,
            channels: 0,
        };
        assert(planes_of(r.planes@) =~= Seq::<Seq<u32>>::empty());
        r
    }

    /// Goes on after a call that replied `reply`.
    pub fn advance(self, reply: i32) -> (r: Result<Mp3Decoding, String>)
        requires
            self.wf(),
        ensures
            match r {
                Ok(next) => {
                    &&& mp3_complaint(self.step, reply) is None
                    &&& next.step == mp3_next(self.step, reply)
                    &&& next.wf()
                    &&& next.planes == self.planes
                    &&& next.sample_rate == self.sample_rate
                    &&& next.channels == self.channels
                },
                Err(e) => mp3_complaint(self.step, reply) == Some(e@),
            },
    {
        let failed = reply < 0;
        let step = match self.step {
            Mp3Step::FindDecoder => {
                if failed {
                    return Err("mp3 decoder not present in this build".to_owned());
                }
                Mp3Step::AllocContext
            },
            Mp3Step::AllocContext => {
                if failed {
                    return Err("avcodec_alloc_context3 (mp3) returned null".to_owned());
                }
                Mp3Step::Open
            },
            Mp3Step::Open => {
                if failed {
                    return Err("could not open mp3 decoder".to_owned());
                }
                Mp3Step::AllocPacket
            },
            Mp3Step::AllocPacket => {
                if failed {
                    return Err("av_packet_alloc (mp3) returned null".to_owned());
                }
                Mp3Step::AllocFrame
            },
            Mp3Step::AllocFrame => {
                if failed {
                    return Err("av_frame_alloc (mp3) returned null".to_owned());
                }
                Mp3Step::SendPacket
            },
            Mp3Step::SendPacket => {
                if failed {
                    return Err("mp3 decode: send_packet failed".to_owned());
                }
                Mp3Step::Flush
            },
            Mp3Step::Flush => Mp3Step::ReceiveFrame,
            Mp3Step::ReceiveFrame => {
                if is_drained(reply) {
                    Mp3Step::Done
                } else if failed {
                    let number = signed_text(reply as i64);
                    return Err(
                        joined3("mp3 decode: receive_frame failed (", number.as_str(), ")"),
                    );
                } else {
                    Mp3Step::TakeFrame
                }
            },
            Mp3Step::TakeFrame => Mp3Step::TakeFrame,
            Mp3Step::Done => Mp3Step::Done,
        };
        Ok(
            Mp3Decoding {
                step,
                planes: self.planes,
                sample_rate: self.sample_rate,
                channels: self.channels,
            },
        )
    }

    /// Adds a frame that the decoder handed out. The first one settles the
    /// channels; one that lacks any of them is refused.
    pub fn take_frame(self, frame: &DecodedFrame) -> (r: Result<Mp3Decoding, String>)
        requires
            self.wf(),
        ensures
            match r {
                Ok(next) => self.refusal(*frame) is None && next.wf() && self.with_frame(
                    *frame,
                    next,
                ),
                Err(e) => self.refusal(*frame) == Some(e@),
            },
    {
        if frame.format != FLTP {
            let number = signed_text(frame.format as i64);
            return Err(
                joined3(
                    "mp3 decoder produced sample format ",
                    number.as_str(),
                    " (expected FLTP 8); no resampler is available to convert it",
                ),
            );
        }
        let mut planes = self.planes;
        let mut sample_rate: i32 = self.sample_rate;
        if planes.len() == 0 {
            for c in 0..frame.planes.len()
                invariant
                    planes@.len() == c,
                    forall|d: int| 0 <= d < c ==> (#[trigger] planes@[d])@ == Seq::<u32>::empty(),
            {
                planes.push(Vec::new());
            }
            sample_rate = frame.sample_rate;
        }
        let ghost base = opened(planes_of(self.planes@), frame.planes@.len());
        assert(planes_of(planes@) =~= base);
        if !stays_within(&planes, &frame.planes) {
            return Err("audio track exceeds the 15-minute decode ceiling".to_owned());
        }
        if !has_layout(&planes, &frame.planes) {
            return Err(
                "mp3 decoder produced a frame that lacks samples for some channel".to_owned(),
            );
        }
        let longer = all_behind(&planes, &frame.planes);
        proof {
            let added = planes_of(frame.planes@);
            let after = planes_of(longer@);
            assert(after == extended(base, added));
            law_planes_stay_even(planes_of(self.planes@), added);
            assert forall|c: int| 0 <= c < longer@.len() implies (#[trigger] longer@[c])@.len()
                <= MAX_SAMPLES_PER_CH by {
                assert(after.len() == longer@.len() && after.len() == base.len());
                assert(after[c] == base[c] + added[c]);
            }
        }
        let channels: i32 = longer.len() as i32;
        Ok(Mp3Decoding { step: Mp3Step::ReceiveFrame, planes: longer, sample_rate, channels })
    }

    /// What was decoded, once all frames have been taken.
    pub fn finish(self) -> (r: Result<DecodedAudio, String>)
        requires
            self.wf(),
        ensures
            match r {
                Ok(d) => {
                    &&& self.planes@.len() > 0 && self.sample_rate != 0
                    &&& d.planes == self.planes
                    &&& d.sample_rate == self.sample_rate
                    &&& d.channels == self.channels
                    &&& d.channels == d.planes@.len()
                    &&& even(planes_of(d.planes@))
                    &&& d.samples() <= MAX_SAMPLES_PER_CH
                },
                Err(e) => {
                    &&& self.planes@.len() == 0 || self.sample_rate == 0
                    &&& e@ == "mp3 produced no audio samples"@
                },
            },
    {
        if self.planes.len() == 0 || self.sample_rate == 0 {
            return Err("mp3 produced no audio samples".to_owned());
        }
        Ok(
            DecodedAudio {
                planes: self.planes,
                sample_rate: self.sample_rate,
                channels: self.channels,
            },
        )
    }
}

/// Whether every plane stays within the ceiling once the frame is added.
fn stays_within(planes: &Vec<Vec<u32>>, frame: &Vec<Vec<u32>>) -> (r: bool)
    ensures
        r == fits(planes_of(planes@), planes_of(frame@)),
{
    let ghost held = planes_of(planes@);
    let ghost added = planes_of(frame@);
    for c in 0..planes.len()
        invariant
            held == planes_of(planes@),
            added == planes_of(frame@),
            forall|d: int|
                0 <= d < c && d < added.len() ==> (#[trigger] held[d]).len() + added[d].len()
                    <= MAX_SAMPLES_PER_CH,
    {
        if c < frame.len() {
            let more: usize = frame[c].len();
            if more > MAX_SAMPLES_PER_CH || planes[c].len() > MAX_SAMPLES_PER_CH - more {
                assert(held[c as int].len() + added[c as int].len() > MAX_SAMPLES_PER_CH);
                return false;
            }
        }
    }
    true
}

/// Whether a frame has the same number of samples for each of the planes.
fn has_layout(planes: &Vec<Vec<u32>>, frame: &Vec<Vec<u32>>) -> (r: bool)
    ensures
        r == matches_layout(planes_of(planes@), planes_of(frame@)),
{
    if planes.len() > i32::MAX as usize || planes.len() > frame.len() {
        return false;
    }
    let ghost added = planes_of(frame@);
    for c in 0..planes.len()
        invariant
            planes@.len() <= frame@.len(),
            added == planes_of(frame@),
            forall|d: int| 0 <= d < c ==> (#[trigger] added[d]).len() == added[0].len(),
    {
        if frame[c].len() != frame[0].len() {
            assert(added[c as int].len() != added[0].len());
            return false;
        }
    }
    true
}

/// The planes with the samples of a frame behind their own.
fn all_behind(planes: &Vec<Vec<u32>>, frame: &Vec<Vec<u32>>) -> (r: Vec<Vec<u32>>)
    requires
        planes@.len() <= frame@.len(),
    ensures
        planes_of(r@) == extended(planes_of(planes@), planes_of(frame@)),
{
    let mut r: Vec<Vec<u32>> = Vec::new();
    for c in 0..planes.len()
        invariant
            planes@.len() <= frame@.len(),
            r@.len() == c,
            forall|d: int| 0 <= d < c ==> (#[trigger] r@[d])@ == planes@[d]@ + frame@[d]@,
    {
        r.push(behind(&planes[c], &frame[c]));
    }
    assert(planes_of(r@) =~= extended(planes_of(planes@), planes_of(frame@)));
    r
}

/// The samples `a` with the samples `b` behind them.
fn behind(a: &Vec<u32>, b: &Vec<u32>) -> (r: Vec<u32>)
    ensures
        r@ == a@ + b@,
{
    let mut r: Vec<u32> = Vec::new();
    r.extend_from_slice(a.as_slice());
    r.extend_from_slice(b.as_slice());
    assert(r@ =~= a@ + b@);
    r
}

/// The chosen audio encoder.
pub struct AudioPlan {
    pub codec_name: &'static str,
}

/// The audio encoder that needs no resampling for a source rate: Opus where it
/// takes the rate, Vorbis for any other; or why there is none.
pub open spec fn planned_audio(rate: i32, opus: bool, vorbis: bool) -> Result<
    Seq<char>,
    Seq<char>,
> {
    if opus && opus_rate(rate) {
        Ok("opus"@)
    } else if vorbis {
        Ok("vorbis"@)
    } else if opus {
        Err(
            "source is "@ + signed_decimal(rate as int)
                + " Hz, which Opus cannot encode, and no Vorbis encoder is available to take its place (no resampler in this build)"@,
        )
    } else {
        Err("no WebM-compatible audio encoder (opus/vorbis) in this build"@)
    }
}

/// Picks an audio encoder that needs no resampling for this source rate.
pub fn plan_audio(sample_rate: i32, opus_available: bool, vorbis_available: bool) -> (r: Result<
    AudioPlan,
    String,
>)
    ensures
        match r {
            Ok(plan) => planned_audio(sample_rate, opus_available, vorbis_available) == Ok::<
                Seq<char>,
                Seq<char>,
            >(plan.codec_name@),
            Err(e) => planned_audio(sample_rate, opus_available, vorbis_available) == Err::<
                Seq<char>,
                Seq<char>,
            >(e@),
        },
{
    if opus_available && opus_ok(sample_rate) {
        Ok(AudioPlan { codec_name: "opus" })
    } else if vorbis_available {
        Ok(AudioPlan { codec_name: "vorbis" })
    } else if opus_available {
        let number = signed_text(sample_rate as i64);
        Err(
            joined3(
                "source is ",
                number.as_str(),
                " Hz, which Opus cannot encode, and no Vorbis encoder is available to take its place (no resampler in this build)",
            ),
        )
    } else {
        Err("no WebM-compatible audio encoder (opus/vorbis) in this build".to_owned())
    }
}

/// The audio encoder as opened, as far as cutting and muxing depend on it.
pub struct AudioEncoder {
    pub codec_name: &'static str,
    pub frame_size: i32,
    pub sample_rate: i32,
}

/// How an audio encoder is set up before it is opened.
pub struct AudioSettings {
    pub codec_name: &'static str,
    pub sample_fmt: i32,
    pub sample_rate: i32,
    pub bit_rate: i64,
    /// The time base is one over this.
    pub time_base_den: i32,
    pub channels: i32,
    pub global_header: bool,
    /// Whether ffmpeg must be told to accept an experimental encoder.
    pub experimental: bool,
}

/// How the planned audio encoder is set up: planar float at the rate and with
/// the channels of the source, 96 kbit/s. ffmpeg's own Opus and Vorbis
/// encoders count as experimental.
pub fn audio_settings(plan: &AudioPlan, decoded: &DecodedAudio, global_header: bool) -> (r:
    AudioSettings)
    ensures
        r.codec_name == plan.codec_name,
        r.sample_fmt == FLTP,
        r.sample_rate == decoded.sample_rate,
        r.bit_rate == 96_000,
        r.time_base_den == decoded.sample_rate,
        r.channels == decoded.channels,
        r.global_header == global_header,
        r.experimental == (plan.codec_name@ == "opus"@ || plan.codec_name@ == "vorbis"@),
{
    AudioSettings {
        codec_name: plan.codec_name,
        sample_fmt: FLTP,
        sample_rate: decoded.sample_rate,
        bit_rate: 96_000,
        time_base_den: decoded.sample_rate,
        channels: decoded.channels,
        global_header,
        experimental: same_text(plan.codec_name, "opus") || same_text(plan.codec_name, "vorbis"),
    }
}

/// The frame size to cut to: the one that the opened encoder publishes, or
/// 1024 where it takes frames of any size.
pub open spec fn cut_size(published: i32) -> i32 {
    if published > 0 {
        published
    } else {
        1024
    }
}

/// The frame size to cut to, given the one that the opened encoder publishes.
pub fn frame_size_of(published: i32) -> (r: i32)
    ensures
        r == cut_size(published),
        r > 0,
{
    if published > 0 {
        published
    } else {
        1024
    }
}

/// The audio encoder that is planned for the source, once it is open and has
/// published its frame size.
pub fn open_audio_encoder(plan: &AudioPlan, decoded: &DecodedAudio, published: i32) -> (r:
    AudioEncoder)
    ensures
        r.codec_name == plan.codec_name,
        r.frame_size == cut_size(published),
        r.frame_size > 0,
        r.sample_rate == decoded.sample_rate,
{
    AudioEncoder {
        codec_name: plan.codec_name,
        frame_size: frame_size_of(published),
        sample_rate: decoded.sample_rate,
    }
}

/// `size` samples of a plane from `offset` on; silence from `total` on.
pub open spec fn frame_plane(plane: Seq<u32>, total: int, offset: int, size: int) -> Seq<u32> {
    Seq::new(
        size as nat,
        |i: int|
            if offset + i < total {
                plane[offset + i]
            } else {
                0
            },
    )
}

/// Cuts the frame of `frame_size` samples that starts at `offset`, with
/// silence behind a short tail. Nothing past the end.
pub fn make_frame(decoded: &DecodedAudio, frame_size: usize, offset: usize) -> (r: Option<
    Vec<Vec<u32>>,
>)
    requires
        offset < decoded.samples() ==> forall|c: int|
            0 <= c < decoded.planes@.len() ==> (#[trigger] decoded.planes@[c])@.len()
                >= decoded.samples() || decoded.planes@[c]@.len() >= offset + frame_size,
    ensures
        match r {
            Some(frame) => {
                &&& offset < decoded.samples()
                &&& frame@.len() == decoded.planes@.len()
                &&& forall|c: int|
                    0 <= c < frame@.len() ==> (#[trigger] frame@[c])@ == frame_plane(
                        decoded.planes@[c]@,
                        decoded.samples() as int,
                        offset as int,
                        frame_size as int,
                    )
            },
            None => offset >= decoded.samples(),
        },
{
    let total = decoded.total_samples();
    if offset >= total {
        return None;
    }
    let take: usize = if total - offset < frame_size {
        total - offset
    } else {
        frame_size
    };
    let mut frame: Vec<Vec<u32>> = Vec::new();
    for c in 0..decoded.planes.len()
        invariant
            offset < total,
            total == decoded.samples(),
            take <= frame_size,
            take == (if total - offset < frame_size {
                total - offset
            } else {
                frame_size as int
            }),
            forall|d: int|
                0 <= d < decoded.planes@.len() ==> (#[trigger] decoded.planes@[d])@.len()
                    >= decoded.samples() || decoded.planes@[d]@.len() >= offset + frame_size,
            frame@.len() == c,
            forall|d: int|
                0 <= d < c ==> (#[trigger] frame@[d])@ == frame_plane(
                    decoded.planes@[d]@,
                    total as int,
                    offset as int,
                    frame_size as int,
                ),
    {
        let plane = &decoded.planes[c];
        let mut cut: Vec<u32> = Vec::new();
        let ghost whole = frame_plane(plane@, total as int, offset as int, frame_size as int);
        for i in 0..frame_size
            invariant
                offset < total,
                take <= frame_size,
                take == (if total - offset < frame_size {
                    total - offset
                } else {
                    frame_size as int
                }),
                plane@.len() >= total || plane@.len() >= offset + frame_size,
                whole == frame_plane(plane@, total as int, offset as int, frame_size as int),
                cut@.len() == i,
                forall|j: int| 0 <= j < i ==> cut@[j] == whole[j],
        {
            if i < take {
                cut.push(plane[offset + i]);
            } else {
                cut.push(0);
            }
        }
        assert(cut@ =~= whole);
        frame.push(cut);
    }
    Some(frame)
}

/// The frames of `size` samples from `offset` on, one behind the other.
pub open spec fn frames_from(plane: Seq<u32>, total: int, offset: int, size: int) -> Seq<u32>
    decreases (if offset < total { total - offset } else { 0 }),
{
    if offset < total && size > 0 {
        frame_plane(plane, total, offset, size) + frames_from(plane, total, offset + size, size)
    } else {
        Seq::empty()
    }
}

/// Cutting a plane into frames loses no sample, repeats none and keeps their
/// order: the frames one behind the other are the plane, with less than one
/// frame of silence behind it.
pub proof fn law_frames_are_the_plane(plane: Seq<u32>, size: int)
    requires
        size > 0,
    ensures
        frames_from(plane, plane.len() as int, 0, size).len() >= plane.len(),
        frames_from(plane, plane.len() as int, 0, size).len() < plane.len() + size,
        frames_from(plane, plane.len() as int, 0, size).take(plane.len() as int) == plane,
        forall|i: int|
            plane.len() <= i < frames_from(plane, plane.len() as int, 0, size).len()
                ==> #[trigger] frames_from(plane, plane.len() as int, 0, size)[i] == 0,
{
    lemma_frames(plane, plane.len() as int, 0, size);
    assert(frames_from(plane, plane.len() as int, 0, size).take(plane.len() as int) =~= plane);
}

proof fn lemma_frames(plane: Seq<u32>, total: int, offset: int, size: int)
    requires
        size > 0,
        0 <= offset,
    ensures
        offset < total ==> total - offset <= frames_from(plane, total, offset, size).len() < total
            - offset + size,
        offset >= total ==> frames_from(plane, total, offset, size).len() == 0,
        forall|i: int|
            0 <= i < frames_from(plane, total, offset, size).len() ==> #[trigger] frames_from(
                plane,
                total,
                offset,
                size,
            )[i] == (if offset + i < total {
                plane[offset + i]
            } else {
                0
            }),
    decreases (if offset < total { total - offset } else { 0 }),
{
    if offset < total {
        lemma_frames(plane, total, offset + size, size);
        let rest = frames_from(plane, total, offset + size, size);
        let all = frames_from(plane, total, offset, size);
        assert forall|i: int| 0 <= i < all.len() implies #[trigger] all[i] == (if offset + i
            < total {
            plane[offset + i]
        } else {
            0
        }) by {
            if i >= size {
                assert(all[i] == rest[i - size]);
            }
        }
    }
}

/// Planes of the same length keep the same length whenever a frame is added
/// that is not refused.
pub proof fn law_planes_stay_even(planes: Seq<Seq<u32>>, frame: Seq<Seq<u32>>)
    requires
        even(planes),
        matches_layout(opened(planes, frame.len()), frame),
    ensures
        even(extended(opened(planes, frame.len()), frame)),
{
    let base = opened(planes, frame.len());
    let after = extended(base, frame);
    assert forall|c: int, d: int| 0 <= c < after.len() && 0 <= d < after.len() implies (
    #[trigger] after[c]).len() == (#[trigger] after[d]).len() by {
        assert(base[c].len() == base[d].len());
        assert(frame[c].len() == frame[d].len());
    }
}

/// The planes after all frames.
pub open spec fn decoded_planes(frames: Seq<Seq<Seq<u32>>>) -> Seq<Seq<u32>>
    decreases frames.len(),
{
    if frames.len() == 0 {
        Seq::empty()
    } else {
        extended(
            opened(decoded_planes(frames.drop_last()), frames.last().len()),
            frames.last(),
        )
    }
}

/// The samples of one channel, frame after frame.
pub open spec fn channel_samples(frames: Seq<Seq<Seq<u32>>>, c: int) -> Seq<u32>
    decreases frames.len(),
{
    if frames.len() == 0 {
        Seq::empty()
    } else {
        channel_samples(frames.drop_last(), c) + frames.last()[c]
    }
}

/// Adding a frame to the planes of some frames gives the planes of those
/// frames and this one: the planes of a decoding are at any time those of the
/// frames that it has taken.
pub proof fn law_planes_are_those_of_the_frames(
    state: Mp3Decoding,
    frames: Seq<Seq<Seq<u32>>>,
    frame: DecodedFrame,
    next: Mp3Decoding,
)
    requires
        planes_of(state.planes@) == decoded_planes(frames),
        state.with_frame(frame, next),
    ensures
        planes_of(next.planes@) == decoded_planes(frames.push(planes_of(frame.planes@))),
{
    assert(frames.push(planes_of(frame.planes@)).drop_last() =~= frames);
}

/// Decoding keeps every sample of the channels that the first frame has: each
/// plane is the samples of its channel, frame after frame.
pub proof fn law_decoding_keeps_every_sample(frames: Seq<Seq<Seq<u32>>>, channels: nat)
    requires
        frames.len() > 0,
        channels > 0,
        frames[0].len() == channels,
        forall|k: int| 0 <= k < frames.len() ==> (#[trigger] frames[k]).len() >= channels,
    ensures
        decoded_planes(frames).len() == channels,
        forall|c: int|
            0 <= c < channels ==> #[trigger] decoded_planes(frames)[c] == channel_samples(
                frames,
                c,
            ),
    decreases frames.len(),
{
    let before = frames.drop_last();
    assert(frames.last() == frames[frames.len() - 1]);
    if before.len() > 0 {
        assert forall|k: int| 0 <= k < before.len() implies (#[trigger] before[k]).len()
            >= channels by {
            assert(before[k] == frames[k]);
        }
        law_decoding_keeps_every_sample(before, channels);
    }
    let base = opened(decoded_planes(before), frames.last().len());
    assert forall|c: int| 0 <= c < channels implies #[trigger] decoded_planes(frames)[c]
        == channel_samples(frames, c) by {
        if before.len() > 0 {
            assert(base[c] == decoded_planes(before)[c]);
        } else {
            assert(base[c] == Seq::<u32>::empty());
            assert(channel_samples(before, c) == Seq::<u32>::empty());
        }
    }
}

/// The header of a tag of `n` bytes: its letters, its version and flags, and the
/// size in four groups of seven bits, the highest first.
pub open spec fn id3v2_header(version: u8, revision: u8, flags: u8, n: nat) -> Seq<u8> {
    seq![
        0x49u8,
        0x44u8,
        0x33u8,
        version,
        revision,
        flags,
        (n / 2097152) as u8,
        (n / 16384 % 128) as u8,
        (n / 128 % 128) as u8,
        (n % 128) as u8,
    ]
}

/// A number of at most 28 bits is its four groups of seven bits.
proof fn lemma_groups_of_seven(n: nat)
    requires
        n < 0x1000_0000,
    ensures
        n / 2097152 < 128,
        (n / 2097152) * 2097152 + (n / 16384 % 128) * 16384 + (n / 128 % 128) * 128 + n % 128 == n,
{
    assert(n / 16384 == (n / 2097152) * 128 + n / 16384 % 128);
    assert(n / 128 == (n / 16384) * 128 + n / 128 % 128);
}

/// A tag that is written in front of the audio is skipped whole, with its
/// footer where its flags announce one.
pub proof fn law_a_tag_in_front_is_skipped(
    version: u8,
    revision: u8,
    flags: u8,
    tag: Seq<u8>,
    footer: Seq<u8>,
    audio: Seq<u8>,
)
    requires
        tag.len() < 0x1000_0000,
        footer.len() == (if (flags / 16) % 2 == 1 {
            10nat
        } else {
            0nat
        }),
    ensures
        ({
            let front = id3v2_header(version, revision, flags, tag.len()) + tag + footer;
            &&& id3v2_len(front + audio) == front.len()
            &&& (front + audio).skip(id3v2_len(front + audio)) == audio
        }),
{
    let n = tag.len();
    let header = id3v2_header(version, revision, flags, n);
    let front = header + tag + footer;
    let file = front + audio;
    lemma_groups_of_seven(n);
    assert(header.len() == 10);
    assert(file[0] == header[0] && file[1] == header[1] && file[2] == header[2]);
    assert(file[5] == header[5]);
    assert(file[6] == header[6] && file[7] == header[7] && file[8] == header[8] && file[9]
        == header[9]);
    assert(id3v2_len(file) == front.len());
    assert(file.skip(front.len() as int) =~= audio);
}

/// Bytes that do not begin with the letters of a tag have none to skip.
pub proof fn law_audio_without_a_tag_is_kept(bytes: Seq<u8>)
    requires
        bytes.len() < 10 || bytes[0] != 0x49 || bytes[1] != 0x44 || bytes[2] != 0x33,
    ensures
        id3v2_len(bytes) == 0,
{
}

/// Opus is planned exactly for the rates that it takes where the build has it,
/// Vorbis for everything else where the build has it, and nothing otherwise.
pub proof fn law_audio_needs_no_resampler(rate: i32, opus: bool, vorbis: bool)
    ensures
        ({
            let taken = rate == 8000 || rate == 12000 || rate == 16000 || rate == 24000 || rate
                == 48000;
            &&& opus_rate(rate) == taken
            &&& planned_audio(rate, opus, vorbis) is Ok <==> (opus && taken) || vorbis
            &&& planned_audio(rate, opus, vorbis) matches Ok(codec) ==> codec == if opus && taken {
                "opus"@
            } else {
                "vorbis"@
            }
            &&& opus && !taken && !vorbis ==> planned_audio(rate, opus, vorbis) == Err::<
                Seq<char>,
                Seq<char>,
            >(
                "source is "@ + signed_decimal(rate as int)
                    + " Hz, which Opus cannot encode, and no Vorbis encoder is available to take its place (no resampler in this build)"@,
            )
        }),
{
}

/// An encoder that publishes a frame size gets frames of that size, one that
/// takes any gets frames of 1024 samples.
pub proof fn law_frames_have_the_published_size(published: i32)
    ensures
        published > 0 ==> cut_size(published) == published,
        published <= 0 ==> cut_size(published) == 1024,
{
}

/// A frame has the size that is asked for; it holds the samples of the plane
/// from its offset on, each in its place, and silence from the end on.
pub proof fn law_a_frame_holds_its_samples(
    plane: Seq<u32>,
    total: int,
    offset: int,
    size: int,
    i: int,
)
    requires
        0 <= i < size,
    ensures
        frame_plane(plane, total, offset, size).len() == size,
        offset + i < total ==> frame_plane(plane, total, offset, size)[i] == plane[offset + i],
        offset + i >= total ==> frame_plane(plane, total, offset, size)[i] == 0,
{
}

/// The number of samples of decoded audio is the length of each of its planes.
pub proof fn law_samples_are_those_of_a_plane(audio: DecodedAudio, c: int)
    requires
        even(planes_of(audio.planes@)),
        0 <= c < audio.planes@.len(),
    ensures
        audio.samples() == audio.planes@[c]@.len(),
{
    assert(planes_of(audio.planes@)[c].len() == planes_of(audio.planes@)[0].len());
}

/// A frame of planar float that has one equally long plane for each channel is
/// refused exactly if it would make a plane longer than fifteen minutes at
/// 48 kHz; a frame of another format, or one that lacks a channel, always is.
pub proof fn law_frames_are_refused_for_a_reason(state: Mp3Decoding, frame: DecodedFrame)
    requires
        state.wf(),
        state.planes@.len() > 0,
    ensures
        frame.format != 8 ==> state.refusal(frame) is Some,
        frame.planes@.len() < state.planes@.len() ==> state.refusal(frame) is Some,
        frame.format == 8 && frame.planes@.len() == state.planes@.len() && even(
            planes_of(frame.planes@),
        ) ==> (state.refusal(frame) is Some <==> state.planes@[0]@.len()
            + frame.planes@[0]@.len() > 43_200_000),
{
    let base = state.base(frame);
    let held = planes_of(state.planes@);
    let added = planes_of(frame.planes@);
    assert(base == held);
    if frame.format == 8 && frame.planes@.len() == state.planes@.len() && even(added) {
        assert(held[0] == state.planes@[0]@ && added[0] == frame.planes@[0]@);
        if state.planes@[0]@.len() + frame.planes@[0]@.len() <= 43_200_000 {
            assert forall|c: int|
                0 <= c < base.len() && c < added.len() implies (#[trigger] base[c]).len()
                + added[c].len() <= MAX_SAMPLES_PER_CH by {
                assert(held[c].len() == held[0].len());
                assert(added[c].len() == added[0].len());
            }
            assert forall|c: int| 0 <= c < base.len() implies (#[trigger] added[c]).len()
                == added[0].len() by {}
        }
    }
}

/// The first frame settles the channels and the rate of the track, and later
/// ones change neither.
pub proof fn law_the_first_frame_settles_the_track(
    state: Mp3Decoding,
    frame: DecodedFrame,
    next: Mp3Decoding,
)
    requires
        state.with_frame(frame, next),
    ensures
        next.step == Mp3Step::ReceiveFrame,
        state.planes@.len() == 0 ==> next.channels == frame.planes@.len() && next.planes@.len()
            == frame.planes@.len() && next.sample_rate == frame.sample_rate,
        state.planes@.len() > 0 ==> next.channels == state.planes@.len() && next.planes@.len()
            == state.planes@.len() && next.sample_rate == state.sample_rate,
{
    assert(planes_of(next.planes@).len() == next.planes@.len());
}

/// Taking a frame puts its samples behind those there are, channel by channel.
pub proof fn law_samples_go_behind(
    state: Mp3Decoding,
    frame: DecodedFrame,
    next: Mp3Decoding,
    c: int,
)
    requires
        state.refusal(frame) is None,
        state.with_frame(frame, next),
        0 <= c < next.planes@.len(),
    ensures
        state.planes@.len() == 0 ==> next.planes@[c]@ == frame.planes@[c]@,
        state.planes@.len() > 0 ==> next.planes@[c]@ == state.planes@[c]@ + frame.planes@[c]@,
{
    let after = planes_of(next.planes@);
    assert(after[c] == next.planes@[c]@);
    assert(after.len() == next.planes@.len());
    if state.planes@.len() == 0 {
        assert(state.base(frame)[c] =~= Seq::<u32>::empty());
        assert(planes_of(frame.planes@)[c] == frame.planes@[c]@);
        assert(after[c] =~= frame.planes@[c]@);
    } else {
        assert(state.base(frame)[c] == state.planes@[c]@);
        assert(planes_of(frame.planes@)[c] == frame.planes@[c]@);
    }
}

/// The calls of the decoder come in order: it is found, given a context and
/// opened, a packet and a frame are allocated, the packet is sent, the decoder
/// is flushed, and then frames are received until there are none left.
pub proof fn law_decoder_calls_come_in_order(reply: i32)
    ensures
        mp3_next(Mp3Step::FindDecoder, reply) == Mp3Step::AllocContext,
        mp3_next(Mp3Step::AllocContext, reply) == Mp3Step::Open,
        mp3_next(Mp3Step::Open, reply) == Mp3Step::AllocPacket,
        mp3_next(Mp3Step::AllocPacket, reply) == Mp3Step::AllocFrame,
        mp3_next(Mp3Step::AllocFrame, reply) == Mp3Step::SendPacket,
        mp3_next(Mp3Step::SendPacket, reply) == Mp3Step::Flush,
        mp3_next(Mp3Step::Flush, reply) == Mp3Step::ReceiveFrame,
        mp3_next(Mp3Step::ReceiveFrame, reply) == Mp3Step::Done <==> reply == -6 || reply
            == -541_478_725,
        mp3_next(Mp3Step::ReceiveFrame, reply) != Mp3Step::Done ==> mp3_next(
            Mp3Step::ReceiveFrame,
            reply,
        ) == Mp3Step::TakeFrame,
{
}

/// A call of the decoder ends the decoding exactly if it fails. The reply to
/// the flush does not count, and having no frame left is no failure.
pub proof fn law_exactly_failures_end_the_decoding(step: Mp3Step, reply: i32)
    ensures
        mp3_complaint(step, reply) is Some <==> {
            &&& reply < 0
            &&& step != Mp3Step::Flush && step != Mp3Step::TakeFrame && step != Mp3Step::Done
            &&& !(step == Mp3Step::ReceiveFrame && (reply == -6 || reply == -541_478_725))
        },
        mp3_complaint(Mp3Step::ReceiveFrame, reply) matches Some(e) ==> e
            == "mp3 decode: receive_frame failed ("@ + signed_decimal(reply as int) + ")"@,
{
}

/// The failure of a call of the decoder reads as the call that failed.
pub proof fn law_decoding_failures_tell_the_call(reply: i32)
    requires
        reply < 0,
    ensures
        mp3_complaint(Mp3Step::FindDecoder, reply) == Some("mp3 decoder not present in this build"@),
        mp3_complaint(Mp3Step::AllocContext, reply) == Some(
            "avcodec_alloc_context3 (mp3) returned null"@,
        ),
        mp3_complaint(Mp3Step::Open, reply) == Some("could not open mp3 decoder"@),
        mp3_complaint(Mp3Step::AllocPacket, reply) == Some("av_packet_alloc (mp3) returned null"@),
        mp3_complaint(Mp3Step::AllocFrame, reply) == Some("av_frame_alloc (mp3) returned null"@),
        mp3_complaint(Mp3Step::SendPacket, reply) == Some("mp3 decode: send_packet failed"@),
{
}

/// Without an encoder of either kind the failure says so, whatever the rate.
pub proof fn law_builds_without_audio_say_so(rate: i32)
    ensures
        planned_audio(rate, false, false) == Err::<Seq<char>, Seq<char>>(
            "no WebM-compatible audio encoder (opus/vorbis) in this build"@,
        ),
{
}

/// The ceiling of a track is fifteen minutes at 48 kHz.
pub proof fn law_the_ceiling_is_fifteen_minutes()
    ensures
        MAX_SAMPLES_PER_CH == 48_000 * 60 * 15,
{
}

/// A frame that was received waits until it is taken, whatever the reply, and a
/// decoding that is done stays done.
pub proof fn law_frames_wait_to_be_taken(reply: i32)
    ensures
        mp3_next(Mp3Step::TakeFrame, reply) == Mp3Step::TakeFrame,
        mp3_next(Mp3Step::Done, reply) == Mp3Step::Done,
{
}

/// A frame in another format than planar float is refused first of all, in
/// words that tell the format it has.
pub proof fn law_other_formats_are_named(state: Mp3Decoding, frame: DecodedFrame)
    ensures
        frame.format != 8 ==> state.refusal(frame) == Some(
            "mp3 decoder produced sample format "@ + signed_decimal(frame.format as int)
                + " (expected FLTP 8); no resampler is available to convert it"@,
        ),
{
}

}

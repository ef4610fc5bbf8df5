//! Which encoders to use: the container and codec decision, which depends on
//! what the linked ffmpeg build provides.
use vstd::prelude::*;

use crate::json::{compact_text, empty_object, Json, JsonValue};
use crate::loom_render::seconds::Seconds;
use crate::text::{bool_text, bool_word, joined, joined3, same_text};

verus! {

/// Which encoders the linked ffmpeg build provides.
#[derive(Debug, Clone, Copy, PartialEq, Eq, Structural)]
pub struct EncoderAvailability {
    pub vp9: bool,
    pub av1: bool,
    pub mpeg4: bool,
    pub opus: bool,
    pub aac: bool,
    pub vorbis: bool,
}

/// A video encoder, an audio encoder and the container that takes both.
#[derive(Debug, Clone, Copy, PartialEq, Eq)]
pub struct Triple {
    pub video: &'static str,
    pub audio: &'static str,
    pub container: &'static str,
    pub mime_type: &'static str,
}

/// The names that a [`Triple`] holds.
#[verifier::ext_equal]
pub struct TripleNames {
    pub video: Seq<char>,
    pub audio: Seq<char>,
    pub container: Seq<char>,
    pub mime_type: Seq<char>,
}

impl View for Triple {
    type V = TripleNames;

    open spec fn view(&self) -> TripleNames {
        TripleNames {
            video: self.video@,
            audio: self.audio@,
            container: self.container@,
            mime_type: self.mime_type@,
        }
    }
}

/// WebM with VP9 video and the given audio.
pub open spec fn webm(audio: Seq<char>) -> TripleNames {
    TripleNames {
        video: "libvpx-vp9"@,
        audio,
        container: "webm"@,
        mime_type: "video/webm"@,
    }
}

/// MP4 with the given video and AAC audio.
pub open spec fn mp4(video: Seq<char>) -> TripleNames {
    TripleNames { video, audio: "aac"@, container: "mp4"@, mime_type: "video/mp4"@ }
}

impl EncoderAvailability {
    /// Whether the encoder `name` is one of those that the build provides.
    pub open spec fn provides(self, name: Seq<char>) -> bool {
        ||| name == "libvpx-vp9"@ && self.vp9
        ||| name == "libaom-av1"@ && self.av1
        ||| name == "mpeg4"@ && self.mpeg4
        ||| name == "opus"@ && self.opus
        ||| name == "aac"@ && self.aac
        ||| name == "vorbis"@ && self.vorbis
    }

    /// The preferred triple: WebM with Opus before MP4 with AAC, and in MP4
    /// MPEG-4 before AV1.
    pub open spec fn preferred(self) -> Option<TripleNames> {
        if self.vp9 && self.opus {
            Some(webm("opus"@))
        } else if self.mpeg4 && self.aac {
            Some(mp4("mpeg4"@))
        } else if self.av1 && self.aac {
            Some(mp4("libaom-av1"@))
        } else {
            None
        }
    }

    /// The triple for a given audio encoder: WebM for Opus and Vorbis, MP4 for
    /// AAC, with a video encoder that the build provides.
    pub open spec fn preferred_for(self, audio: Seq<char>) -> Option<TripleNames> {
        if audio == "opus"@ || audio == "vorbis"@ {
            if self.vp9 {
                Some(webm(audio))
            } else {
                None
            }
        } else if audio == "aac"@ {
            if self.mpeg4 {
                Some(mp4("mpeg4"@))
            } else if self.av1 {
                Some(mp4("libaom-av1"@))
            } else {
                None
            }
        } else {
            None
        }
    }

    /// The availability written out, field by field.
    pub open spec fn text(self) -> Seq<char> {
        "EncoderAvailability { vp9: "@ + bool_word(self.vp9) + ", av1: "@ + bool_word(self.av1)
            + ", mpeg4: "@ + bool_word(self.mpeg4) + ", opus: "@ + bool_word(self.opus)
            + ", aac: "@ + bool_word(self.aac) + ", vorbis: "@ + bool_word(self.vorbis) + " }"@
    }

    /// Asks for each encoder by its name whether the linked build has it.
    pub fn probe<F: Fn(&str) -> bool>(encoder_exists: F) -> (r: Self)
        requires
            forall|name: &str| encoder_exists.requires((name,)),
        ensures
            encoder_exists.ensures(("libvpx-vp9",), r.vp9),
            encoder_exists.ensures(("libaom-av1",), r.av1),
            encoder_exists.ensures(("mpeg4",), r.mpeg4),
            encoder_exists.ensures(("opus",), r.opus),
            encoder_exists.ensures(("aac",), r.aac),
            encoder_exists.ensures(("vorbis",), r.vorbis),
    {
        Self {
            vp9: encoder_exists("libvpx-vp9"),
            av1: encoder_exists("libaom-av1"),
            mpeg4: encoder_exists("mpeg4"),
            opus: encoder_exists("opus"),
            aac: encoder_exists("aac"),
            vorbis: encoder_exists("vorbis"),
        }
    }

    /// The availability written out, field by field.
    pub fn to_text(&self) -> (r: String)
        ensures
            r@ == self.text(),
    {
        let a = joined3("EncoderAvailability { vp9: ", bool_text(self.vp9), ", av1: ");
        let b = joined3(a.as_str(), bool_text(self.av1), ", mpeg4: ");
        let c = joined3(b.as_str(), bool_text(self.mpeg4), ", opus: ");
        let d = joined3(c.as_str(), bool_text(self.opus), ", aac: ");
        let e = joined3(d.as_str(), bool_text(self.aac), ", vorbis: ");
        joined3(e.as_str(), bool_text(self.vorbis), " }")
    }

    /// Picks the triple, preferring WebM with VP9 and Opus.
    pub fn choose_triple(&self) -> (r: Result<Triple, String>)
        ensures
            match r {
                Ok(t) => self.preferred() == Some(t@),
                Err(e) => {
                    &&& self.preferred() is None
                    &&& e@ == "no usable (video,audio) encoder pair in this ffmpeg build: "@
                        + self.text()
                },
            },
    {
        if self.vp9 && self.opus {
            Ok(
                Triple {
                    video: "libvpx-vp9",
                    audio: "opus",
                    container: "webm",
                    mime_type: "video/webm",
                },
            )
        } else if self.mpeg4 && self.aac {
            Ok(
                Triple {
                    video: "mpeg4",
                    audio: "aac",
                    container: "mp4",
                    mime_type: "video/mp4",
                },
            )
        } else if self.av1 && self.aac {
            Ok(
                Triple {
                    video: "libaom-av1",
                    audio: "aac",
                    container: "mp4",
                    mime_type: "video/mp4",
                },
            )
        } else {
            let all = self.to_text();
            Err(
                joined(
                    "no usable (video,audio) encoder pair in this ffmpeg build: ",
                    all.as_str(),
                ),
            )
        }
    }

    /// Picks the triple for an audio encoder that is already settled.
    pub fn choose_for_audio(&self, audio_codec: &'static str) -> (r: Result<Triple, String>)
        ensures
            match r {
                Ok(t) => self.preferred_for(audio_codec@) == Some(t@),
                Err(e) => {
                    &&& self.preferred_for(audio_codec@) is None
                    &&& e@ == "no compatible video/container pair for audio codec "@ + audio_codec@
                },
            },
    {
        proof {
            lemma_audio_names();
        }
        let in_webm = same_text(audio_codec, "opus") || same_text(audio_codec, "vorbis");
        let in_mp4 = same_text(audio_codec, "aac");
        if in_webm && self.vp9 {
            Ok(
                Triple {
                    video: "libvpx-vp9",
                    audio: audio_codec,
                    container: "webm",
                    mime_type: "video/webm",
                },
            )
        } else if in_mp4 && self.mpeg4 {
            Ok(
                Triple {
                    video: "mpeg4",
                    audio: "aac",
                    container: "mp4",
                    mime_type: "video/mp4",
                },
            )
        } else if in_mp4 && self.av1 {
            Ok(
                Triple {
                    video: "libaom-av1",
                    audio: "aac",
                    container: "mp4",
                    mime_type: "video/mp4",
                },
            )
        } else {
            Err(joined("no compatible video/container pair for audio codec ", audio_codec))
        }
    }
}

/// What a video is composed of.
pub struct Compose<'a> {
    pub screenshot: &'a [u8],
    pub audio_mp3: &'a [u8],
    pub width: u32,
    pub height: u32,
    pub fps: u32,
    pub duration_sec: Option<Seconds>,
}

/// Whether a video is to have sound: it has none where the audio is empty.
pub fn has_audio(input: &Compose) -> (r: bool)
    ensures
        r == (input.audio_mp3@.len() > 0),
{
    input.audio_mp3.len() > 0
}

/// A composed video.
pub struct Composed {
    pub bytes: Vec<u8>,
    pub container: &'static str,
    pub mime_type: &'static str,
    pub video_codec: &'static str,
    pub audio_codec: &'static str,
    /// The number of seconds, as JSON writes it.
    pub duration_sec: Json,
}

/// The names of the audio encoders differ.
proof fn lemma_audio_names()
    ensures
        "opus"@ != "aac"@,
        "vorbis"@ != "aac"@,
        "opus"@ != "vorbis"@,
{
    reveal_strlit("opus");
    reveal_strlit("aac");
    reveal_strlit("vorbis");
    assert("opus"@.len() == 4);
    assert("aac"@.len() == 3);
    assert("vorbis"@.len() == 6);
}

/// What the diagnostic says of a triple, or of the want of one.
pub open spec fn choice_document(a: EncoderAvailability) -> JsonValue {
    match a.preferred() {
        Some(t) => empty_object().with("video"@, JsonValue::Text(t.video)).with(
            "audio"@,
            JsonValue::Text(t.audio),
        ).with("container"@, JsonValue::Text(t.container)).with(
            "mime_type"@,
            JsonValue::Text(t.mime_type),
        ),
        None => empty_object().with(
            "error"@,
            JsonValue::Text(
                "no usable (video,audio) encoder pair in this ffmpeg build: "@ + a.text(),
            ),
        ),
    }
}

/// What the diagnostic says of a build.
pub open spec fn probe_document(a: EncoderAvailability) -> JsonValue {
    empty_object().with("success"@, JsonValue::Bool(true)).with(
        "probe"@,
        JsonValue::Bool(true),
    ).with(
        "encoders"@,
        empty_object().with("libvpx-vp9"@, JsonValue::Bool(a.vp9)).with(
            "libaom-av1"@,
            JsonValue::Bool(a.av1),
        ).with("mpeg4"@, JsonValue::Bool(a.mpeg4)).with("opus"@, JsonValue::Bool(a.opus)).with(
            "aac"@,
            JsonValue::Bool(a.aac),
        ).with("vorbis"@, JsonValue::Bool(a.vorbis)),
    ).with("chosen"@, choice_document(a))
}

/// The diagnostic as a document: which encoders the build provides, and which
/// triple would be chosen.
pub fn probe_facts(a: &EncoderAvailability) -> (r: Json)
    ensures
        r@ == probe_document(*a),
{
    let encoders = Json::object().with("libvpx-vp9", Json::Bool(a.vp9)).with(
        "libaom-av1",
        Json::Bool(a.av1),
    ).with("mpeg4", Json::Bool(a.mpeg4)).with("opus", Json::Bool(a.opus)).with(
        "aac",
        Json::Bool(a.aac),
    ).with("vorbis", Json::Bool(a.vorbis));
    let chosen = match a.choose_triple() {
        Ok(t) => Json::object().with("video", Json::of_text(t.video)).with(
            "audio",
            Json::of_text(t.audio),
        ).with("container", Json::of_text(t.container)).with(
            "mime_type",
            Json::of_text(t.mime_type),
        ),
        Err(e) => Json::object().with("error", Json::Text(e)),
    };
    Json::object().with("success", Json::Bool(true)).with("probe", Json::Bool(true)).with(
        "encoders",
        encoders,
    ).with("chosen", chosen)
}

/// Reports what this ffmpeg build can encode, as JSON text.
pub fn probe_report(a: &EncoderAvailability) -> (r: String)
    ensures
        r@ == compact_text(probe_document(*a)),
{
    probe_facts(a).to_text()
}

/// Every encoder of the chosen triple is one that the build provides.
pub proof fn law_choice_is_provided(a: EncoderAvailability)
    ensures
        a.preferred() matches Some(t) ==> a.provides(t.video) && a.provides(t.audio),
{
}

/// Choosing for the audio encoder of the preferred triple gives that triple
/// again.
pub proof fn law_choice_agrees_with_its_audio(a: EncoderAvailability)
    ensures
        a.preferred() matches Some(t) ==> a.preferred_for(t.audio) == Some(t),
{
    lemma_audio_names();
}

/// A triple for a given audio encoder uses that encoder, and a video encoder
/// that the build provides.
pub proof fn law_choice_for_audio_keeps_it(a: EncoderAvailability, audio: Seq<char>)
    ensures
        a.preferred_for(audio) matches Some(t) ==> t.audio == audio && a.provides(t.video),
{
    lemma_audio_names();
}

/// Whichever way a triple is chosen, its container takes both its codecs:
/// WebM holds VP9 with Opus or Vorbis, MP4 holds MPEG-4 or AV1 with AAC.
pub proof fn law_container_takes_the_codecs(a: EncoderAvailability, audio: Seq<char>)
    ensures
        a.preferred() matches Some(t) ==> compatible(t),
        a.preferred_for(audio) matches Some(t) ==> compatible(t),
{
}

/// Whether the container of a triple takes its video and its audio.
pub open spec fn compatible(t: TripleNames) -> bool {
    ||| {
        &&& t.container == "webm"@ && t.mime_type == "video/webm"@
        &&& t.video == "libvpx-vp9"@
        &&& t.audio == "opus"@ || t.audio == "vorbis"@
    }
    ||| {
        &&& t.container == "mp4"@ && t.mime_type == "video/mp4"@
        &&& t.video == "mpeg4"@ || t.video == "libaom-av1"@
        &&& t.audio == "aac"@
    }
}

/// WebM with VP9 and Opus is chosen whenever the build has both; MP4 with AAC
/// only otherwise, with MPEG-4 before AV1; and nothing exactly where the build
/// has none of these pairs.
pub proof fn law_preferences_come_in_order(a: EncoderAvailability)
    ensures
        a.vp9 && a.opus ==> (a.preferred() matches Some(t) && t.video == "libvpx-vp9"@ && t.audio
            == "opus"@ && t.container == "webm"@ && t.mime_type == "video/webm"@),
        !(a.vp9 && a.opus) && a.mpeg4 && a.aac ==> (a.preferred() matches Some(t) && t.video
            == "mpeg4"@ && t.audio == "aac"@ && t.container == "mp4"@ && t.mime_type
            == "video/mp4"@),
        !(a.vp9 && a.opus) && !a.mpeg4 && a.av1 && a.aac ==> (a.preferred() matches Some(t)
            && t.video == "libaom-av1"@ && t.audio == "aac"@ && t.container == "mp4"@
            && t.mime_type == "video/mp4"@),
        a.preferred() is None <==> !(a.vp9 && a.opus) && !(a.mpeg4 && a.aac) && !(a.av1 && a.aac),
{
}

/// For a given audio encoder there is a triple exactly if it is Opus or Vorbis
/// and the build has VP9, or AAC and the build has MPEG-4, which goes first, or
/// AV1.
pub proof fn law_audio_settles_the_rest(a: EncoderAvailability, audio: Seq<char>)
    ensures
        a.preferred_for(audio) is Some <==> ((audio == "opus"@ || audio == "vorbis"@) && a.vp9) || (
        audio == "aac"@ && (a.mpeg4 || a.av1)),
        a.preferred_for(audio) matches Some(t) ==> {
            &&& t.audio == audio
            &&& audio != "aac"@ ==> t.video == "libvpx-vp9"@ && t.container == "webm"@
                && t.mime_type == "video/webm"@
            &&& audio == "aac"@ ==> t.container == "mp4"@ && t.mime_type == "video/mp4"@
            &&& audio == "aac"@ && a.mpeg4 ==> t.video == "mpeg4"@
            &&& audio == "aac"@ && !a.mpeg4 ==> t.video == "libaom-av1"@
        },
{
    lemma_audio_names();
}

/// The availability reads as its fields by their names, each with its truth.
pub proof fn law_availability_reads_field_by_field(a: EncoderAvailability)
    ensures
        a.text() == "EncoderAvailability { vp9: "@ + (if a.vp9 {
            "true"@
        } else {
            "false"@
        }) + ", av1: "@ + (if a.av1 {
            "true"@
        } else {
            "false"@
        }) + ", mpeg4: "@ + (if a.mpeg4 {
            "true"@
        } else {
            "false"@
        }) + ", opus: "@ + (if a.opus {
            "true"@
        } else {
            "false"@
        }) + ", aac: "@ + (if a.aac {
            "true"@
        } else {
            "false"@
        }) + ", vorbis: "@ + (if a.vorbis {
            "true"@
        } else {
            "false"@
        }) + " }"@,
{
}

/// The diagnostic tells of each encoder, under its name, whether the build has
/// it.
pub proof fn law_the_probe_tells_each_encoder(a: EncoderAvailability, other: Seq<char>)
    ensures
        ({
            let report = probe_document(a);
            let encoders = report.field("encoders"@);
            &&& report.field("success"@) == JsonValue::Bool(true)
            &&& report.field("probe"@) == JsonValue::Bool(true)
            &&& encoders.field("libvpx-vp9"@) == JsonValue::Bool(a.vp9)
            &&& encoders.field("libaom-av1"@) == JsonValue::Bool(a.av1)
            &&& encoders.field("mpeg4"@) == JsonValue::Bool(a.mpeg4)
            &&& encoders.field("opus"@) == JsonValue::Bool(a.opus)
            &&& encoders.field("aac"@) == JsonValue::Bool(a.aac)
            &&& encoders.field("vorbis"@) == JsonValue::Bool(a.vorbis)
            &&& encoders.member(other) is Some ==> other == "libvpx-vp9"@ || other == "libaom-av1"@ || other == "mpeg4"@ || other == "opus"@ || other == "aac"@ || other == "vorbis"@
            &&& report.member(other) is Some ==> other == "success"@ || other == "probe"@ || other
                == "encoders"@ || other == "chosen"@
        }),
{
    reveal_strlit("success");
    reveal_strlit("probe");
    reveal_strlit("encoders");
    reveal_strlit("chosen");
    assert("success"@.len() != "probe"@.len());
    assert("success"@.len() != "encoders"@.len());
    assert("success"@.len() != "chosen"@.len());
    assert("probe"@.len() != "encoders"@.len());
    assert("probe"@.len() != "chosen"@.len());
    assert("encoders"@.len() != "chosen"@.len());
    reveal_strlit("libvpx-vp9");
    reveal_strlit("libaom-av1");
    reveal_strlit("mpeg4");
    reveal_strlit("opus");
    reveal_strlit("aac");
    reveal_strlit("vorbis");
    assert("libvpx-vp9"@[3] != "libaom-av1"@[3]);
    assert("libvpx-vp9"@.len() != "mpeg4"@.len());
    assert("libvpx-vp9"@.len() != "opus"@.len());
    assert("libvpx-vp9"@.len() != "aac"@.len());
    assert("libvpx-vp9"@.len() != "vorbis"@.len());
    assert("libaom-av1"@.len() != "mpeg4"@.len());
    assert("libaom-av1"@.len() != "opus"@.len());
    assert("libaom-av1"@.len() != "aac"@.len());
    assert("libaom-av1"@.len() != "vorbis"@.len());
    assert("mpeg4"@.len() != "opus"@.len());
    assert("mpeg4"@.len() != "aac"@.len());
    assert("mpeg4"@.len() != "vorbis"@.len());
    assert("opus"@.len() != "aac"@.len());
    assert("opus"@.len() != "vorbis"@.len());
    assert("aac"@.len() != "vorbis"@.len());
}

/// The diagnostic tells the triple that is chosen, each name under its own, or
/// why there is none.
pub proof fn law_the_probe_tells_the_choice(a: EncoderAvailability)
    ensures
        ({
            let chosen = probe_document(a).field("chosen"@);
            match a.preferred() {
                Some(t) => {
                    &&& chosen.field("video"@) == JsonValue::Text(t.video)
                    &&& chosen.field("audio"@) == JsonValue::Text(t.audio)
                    &&& chosen.field("container"@) == JsonValue::Text(t.container)
                    &&& chosen.field("mime_type"@) == JsonValue::Text(t.mime_type)
                    &&& chosen.member("error"@) is None
                },
                None => {
                    &&& chosen.field("error"@) == JsonValue::Text(
                        "no usable (video,audio) encoder pair in this ffmpeg build: "@ + a.text(),
                    )
                    &&& chosen.member("video"@) is None
                },
            }
        }),
{
    reveal_strlit("success");
    reveal_strlit("probe");
    reveal_strlit("encoders");
    reveal_strlit("chosen");
    assert("success"@.len() != "probe"@.len());
    assert("success"@.len() != "encoders"@.len());
    assert("success"@.len() != "chosen"@.len());
    assert("probe"@.len() != "encoders"@.len());
    assert("probe"@.len() != "chosen"@.len());
    assert("encoders"@.len() != "chosen"@.len());
    reveal_strlit("video");
    reveal_strlit("audio");
    reveal_strlit("container");
    reveal_strlit("mime_type");
    reveal_strlit("error");
    assert("video"@[0] != "audio"@[0]);
    assert("video"@.len() != "container"@.len());
    assert("video"@.len() != "mime_type"@.len());
    assert("video"@[0] != "error"@[0]);
    assert("audio"@.len() != "container"@.len());
    assert("audio"@.len() != "mime_type"@.len());
    assert("audio"@[0] != "error"@[0]);
    assert("container"@[0] != "mime_type"@[0]);
    assert("container"@.len() != "error"@.len());
    assert("mime_type"@.len() != "error"@.len());
}

/// The names of a triple are those that it holds, each in its place.
pub proof fn law_triples_say_what_they_hold(t: Triple)
    ensures
        t@.video == t.video@,
        t@.audio == t.audio@,
        t@.container == t.container@,
        t@.mime_type == t.mime_type@,
{
}

}

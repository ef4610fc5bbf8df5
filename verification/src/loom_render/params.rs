//! What a caller asks for, and which requests are refused.
use vstd::prelude::*;

use crate::json::{document_of_text, Json, JsonValue};
use crate::loom_render::seconds::Seconds;
use crate::text::{begins_with, blank, is_blank, joined, joined3, same_text, starts_with};

verus! {

/// The frame rate of every video.
pub const DEFAULT_FPS: u32 = 25;

/// The parameters of a request, as a JSON schema.
pub const SCHEMA: &'static str = r#"{
  "type": "object",
  "properties": {
    "audio_drive_file_id":    { "type": "string", "minLength": 1, "description": "Drive file id of the stage-1 intro audio (MP3)." },
    "website_url":            { "type": "string", "minLength": 1, "description": "Lead's website; captured as the video's visual." },
    "drive_output_folder_id": { "type": "string", "minLength": 1, "description": "Drive folder the rendered video is uploaded to." },
    "aspect_ratio":  { "type": "string", "enum": ["16:9","9:16","1:1"], "default": "16:9" },
    "resolution":    { "type": "string", "enum": ["720p","1080p"], "default": "1080p" },
    "duration_sec":  { "type": "number", "minimum": 1, "maximum": 120, "description": "Defaults to the audio length." },
    "output_name":   { "type": "string", "description": "Drive file name. Defaults to loom-<timestamp>.webm." },
    "probe_encoders": { "type": "boolean", "description": "Diagnostic: report which ffmpeg encoders this build provides and which container/codec pair would be chosen, then stop. Renders nothing." }
  },
  "required": ["audio_drive_file_id","website_url","drive_output_folder_id"],
  "additionalProperties": false
}"#;

/// What the tool does, in words for its callers.
pub const DESCRIPTION: &'static str = "Compose a personalized Loom-style video from a Drive-hosted intro audio track and a screenshot of the lead's website, then upload the result to Drive. Stage 2 of the Loom outreach pipeline: consumes the audio produced by `personalized-loom-outreach-poc` and returns `video_drive_file_id`. Requires `audio_drive_file_id`, `website_url`, and `drive_output_folder_id`.";

/// What a caller asks for.
pub struct Params {
    pub audio_drive_file_id: String,
    pub website_url: String,
    pub drive_output_folder_id: String,
    pub aspect_ratio: String,
    pub resolution: String,
    pub duration_sec: Option<Seconds>,
    pub output_name: Option<String>,
    pub probe_encoders: bool,
}

/// The aspect ratio where none is asked for.
pub fn default_aspect() -> (r: String)
    ensures
        r@ == "16:9"@,
{
    "16:9".to_owned()
}

/// The resolution where none is asked for.
pub fn default_resolution() -> (r: String)
    ensures
        r@ == "1080p"@,
{
    "1080p".to_owned()
}

/// The shorter edge that a resolution stands for.
pub open spec fn short_edge(resolution: Seq<char>) -> Option<u32> {
    if resolution == "720p"@ {
        Some(720)
    } else if resolution == "1080p"@ {
        Some(1080)
    } else {
        None
    }
}

/// The longer edge that goes with a shorter edge in the ratio 16 to 9.
pub open spec fn long_edge(edge: u32) -> int {
    edge * 16 / 9
}

/// The greatest even number up to `n`.
pub open spec fn even_floor(n: int) -> int {
    n - n % 2
}

impl Params {
    /// The width and the height of the video, or why there are none.
    pub open spec fn size(self) -> Result<(int, int), Seq<char>> {
        match short_edge(self.resolution@) {
            None => Err(
                "unsupported resolution '"@ + self.resolution@ + "' (720p or 1080p)"@,
            ),
            Some(edge) => if self.aspect_ratio@ == "16:9"@ {
                Ok((even_floor(long_edge(edge)), even_floor(edge as int)))
            } else if self.aspect_ratio@ == "9:16"@ {
                Ok((even_floor(edge as int), even_floor(long_edge(edge))))
            } else if self.aspect_ratio@ == "1:1"@ {
                Ok((even_floor(edge as int), even_floor(edge as int)))
            } else {
                Err(
                    "unsupported aspect_ratio '"@ + self.aspect_ratio@
                        + "' (16:9, 9:16 or 1:1)"@,
                )
            },
        }
    }

    /// What is wrong with a request: the first objection to it, if there is
    /// one.
    pub open spec fn objection(self) -> Option<Seq<char>> {
        if blank(self.audio_drive_file_id@) {
            Some("audio_drive_file_id must not be empty"@)
        } else if blank(self.website_url@) {
            Some("website_url must not be empty"@)
        } else if blank(self.drive_output_folder_id@) {
            Some("drive_output_folder_id must not be empty"@)
        } else if !begins_with(self.website_url@, "http://"@) && !begins_with(
            self.website_url@,
            "https://"@,
        ) {
            Some("website_url must start with http:// or https://"@)
        } else if self.duration_sec matches Some(d) && !d.in_range() {
            Some("duration_sec must be between 1 and 120 seconds"@)
        } else {
            match self.size() {
                Ok(_) => None,
                Err(e) => Some(e),
            }
        }
    }

    /// Resolves the resolution and the aspect ratio to a width and a height.
    /// Both are even: the pixel format halves the chroma planes each way, and
    /// an encoder takes no odd dimension.
    pub fn dimensions(&self) -> (r: Result<(u32, u32), String>)
        ensures
            match r {
                Ok((w, h)) => self.size() == Ok::<(int, int), Seq<char>>((w as int, h as int)),
                Err(e) => self.size() == Err::<(int, int), Seq<char>>(e@),
            },
    {
        let edge: u32 = if same_text(self.resolution.as_str(), "720p") {
            720
        } else if same_text(self.resolution.as_str(), "1080p") {
            1080
        } else {
            return Err(
                joined3(
                    "unsupported resolution '",
                    self.resolution.as_str(),
                    "' (720p or 1080p)",
                ),
            );
        };
        let long: u32 = edge * 16 / 9;
        if same_text(self.aspect_ratio.as_str(), "16:9") {
            Ok((long - long % 2, edge - edge % 2))
        } else if same_text(self.aspect_ratio.as_str(), "9:16") {
            Ok((edge - edge % 2, long - long % 2))
        } else if same_text(self.aspect_ratio.as_str(), "1:1") {
            Ok((edge - edge % 2, edge - edge % 2))
        } else {
            Err(
                joined3(
                    "unsupported aspect_ratio '",
                    self.aspect_ratio.as_str(),
                    "' (16:9, 9:16 or 1:1)",
                ),
            )
        }
    }

    /// Refuses a request that cannot be carried out.
    pub fn validate(&self) -> (r: Result<(), String>)
        ensures
            match r {
                Ok(_) => self.objection() is None,
                Err(e) => self.objection() == Some(e@),
            },
    {
        if is_blank(self.audio_drive_file_id.as_str()) {
            return Err("audio_drive_file_id must not be empty".to_owned());
        }
        if is_blank(self.website_url.as_str()) {
            return Err("website_url must not be empty".to_owned());
        }
        if is_blank(self.drive_output_folder_id.as_str()) {
            return Err("drive_output_folder_id must not be empty".to_owned());
        }
        if !(starts_with(self.website_url.as_str(), "http://") || starts_with(
            self.website_url.as_str(),
            "https://",
        )) {
            return Err("website_url must start with http:// or https://".to_owned());
        }
        if let Some(d) = &self.duration_sec {
            if !d.is_in_range() {
                return Err("duration_sec must be between 1 and 120 seconds".to_owned());
            }
        }
        match self.dimensions() {
            Ok(_) => Ok(()),
            Err(e) => Err(e),
        }
    }
}

/// Whether a request asks for the encoder diagnostic.
pub open spec fn asks_probe(request: JsonValue) -> bool {
    request.bool_member("probe_encoders"@) == Some(true)
}

/// Whether a request asks for the encoder diagnostic, whatever else it holds.
pub fn wants_probe(request: &Json) -> (r: bool)
    ensures
        r == asks_probe(request@),
{
    match request.bool_at("probe_encoders") {
        Some(b) => b,
        None => false,
    }
}

/// Whether the text of a request asks for the encoder diagnostic. Text that is
/// no JSON does not.
pub fn probe_requested(params_json: &str) -> (r: bool)
    ensures
        r == (document_of_text(params_json@) matches Ok(request) && asks_probe(request)),
{
    match Json::parse(params_json) {
        Ok(request) => wants_probe(&request),
        Err(_) => false,
    }
}

/// How a request reads that does not have the form of one.
pub fn invalid_params(reason: &str) -> (r: String)
    ensures
        r@ == "invalid params: "@ + reason@,
{
    joined("invalid params: ", reason)
}

/// Whatever is asked for, the width and the height are even and not zero.
pub proof fn law_dimensions_are_even(p: Params)
    ensures
        p.size() matches Ok((w, h)) ==> w > 0 && h > 0 && w % 2 == 0 && h % 2 == 0,
{
}

/// The width and the height are exactly in the ratio that is asked for, and
/// the shorter of them is the one that the resolution names.
pub proof fn law_dimensions_have_the_ratio(p: Params)
    ensures
        p.size() matches Ok((w, h)) ==> {
            &&& p.aspect_ratio@ == "16:9"@ ==> w * 9 == h * 16
            &&& p.aspect_ratio@ == "9:16"@ ==> w * 16 == h * 9
            &&& p.aspect_ratio@ == "1:1"@ ==> w == h
            &&& short_edge(p.resolution@) == Some((if w < h {
                w
            } else {
                h
            }) as u32)
        },
{
    lemma_ratio_names();
}

proof fn lemma_ratio_names()
    ensures
        "16:9"@ != "9:16"@,
        "16:9"@ != "1:1"@,
        "9:16"@ != "1:1"@,
{
    reveal_strlit("16:9");
    reveal_strlit("9:16");
    reveal_strlit("1:1");
    assert("16:9"@[0] == '1');
    assert("9:16"@[0] == '9');
    assert("1:1"@.len() == 3);
    assert("16:9"@.len() == 4);
    assert("9:16"@.len() == 4);
}

/// A request that is not refused has dimensions, names an HTTP address, and
/// asks for no duration outside 1 to 120 seconds.
pub proof fn law_accepted_requests_can_be_rendered(p: Params)
    requires
        p.objection() is None,
    ensures
        p.size() is Ok,
        begins_with(p.website_url@, "http://"@) || begins_with(p.website_url@, "https://"@),
        p.duration_sec matches Some(d) ==> d.in_range(),
        !blank(p.audio_drive_file_id@),
        !blank(p.drive_output_folder_id@),
{
}

/// A request has dimensions exactly if its resolution and its aspect ratio are
/// among those that are offered; otherwise the first of them that is not is
/// named.
pub proof fn law_offered_sizes_have_dimensions(p: Params)
    ensures
        ({
            let res = p.resolution@ == "720p"@ || p.resolution@ == "1080p"@;
            let ratio = p.aspect_ratio@ == "16:9"@ || p.aspect_ratio@ == "9:16"@ || p.aspect_ratio@
                == "1:1"@;
            &&& p.size() is Ok <==> res && ratio
            &&& !res ==> p.size() == Err::<(int, int), Seq<char>>(
                "unsupported resolution '"@ + p.resolution@ + "' (720p or 1080p)"@,
            )
            &&& res && !ratio ==> p.size() == Err::<(int, int), Seq<char>>(
                "unsupported aspect_ratio '"@ + p.aspect_ratio@ + "' (16:9, 9:16 or 1:1)"@,
            )
        }),
{
}

/// The resolution names the shorter edge in pixels.
pub proof fn law_the_resolution_is_the_shorter_edge(p: Params)
    ensures
        p.size() matches Ok((w, h)) ==> {
            let shorter = if w < h {
                w
            } else {
                h
            };
            &&& p.resolution@ == "720p"@ ==> shorter == 720
            &&& p.resolution@ == "1080p"@ ==> shorter == 1080
        },
{
    reveal_strlit("720p");
    reveal_strlit("1080p");
    assert("720p"@.len() != "1080p"@.len());
}

/// A request is accepted exactly if its three ids are not blank, its website is
/// an HTTP address, its duration, where it has one, is from 1 to 120 seconds,
/// and its size is offered.
pub proof fn law_exactly_good_requests_are_accepted(p: Params)
    ensures
        p.objection() is None <==> {
            &&& !blank(p.audio_drive_file_id@)
            &&& !blank(p.website_url@)
            &&& !blank(p.drive_output_folder_id@)
            &&& begins_with(p.website_url@, "http://"@) || begins_with(
                p.website_url@,
                "https://"@,
            )
            &&& p.duration_sec matches Some(d) ==> 0x3FF0_0000_0000_0000 <= d.bits
                <= 0x405E_0000_0000_0000
            &&& p.resolution@ == "720p"@ || p.resolution@ == "1080p"@
            &&& p.aspect_ratio@ == "16:9"@ || p.aspect_ratio@ == "9:16"@ || p.aspect_ratio@
                == "1:1"@
        },
{
}

/// Two requests that differ only in what nobody looks at are accepted or
/// refused alike: the name of the output and the flag of the diagnostic do not
/// count.
pub proof fn law_names_and_flags_do_not_count(p: Params, q: Params)
    requires
        p.audio_drive_file_id == q.audio_drive_file_id,
        p.website_url == q.website_url,
        p.drive_output_folder_id == q.drive_output_folder_id,
        p.aspect_ratio == q.aspect_ratio,
        p.resolution == q.resolution,
        p.duration_sec == q.duration_sec,
    ensures
        p.objection() == q.objection(),
        p.size() == q.size(),
{
}

/// An objection names what it objects to, and what comes first in a request is
/// objected to first: the ids in their order, the address, the duration, the
/// size.
pub proof fn law_objections_name_their_object(p: Params)
    ensures
        blank(p.audio_drive_file_id@) ==> p.objection() == Some(
            "audio_drive_file_id must not be empty"@,
        ),
        !blank(p.audio_drive_file_id@) && blank(p.website_url@) ==> p.objection() == Some(
            "website_url must not be empty"@,
        ),
        !blank(p.audio_drive_file_id@) && !blank(p.website_url@) && blank(
            p.drive_output_folder_id@,
        ) ==> p.objection() == Some("drive_output_folder_id must not be empty"@),
        p.objection() == Some("website_url must start with http:// or https://"@) ==> !begins_with(
            p.website_url@,
            "http://"@,
        ) && !begins_with(p.website_url@, "https://"@),
        !blank(p.audio_drive_file_id@) && !blank(p.website_url@) && !blank(
            p.drive_output_folder_id@,
        ) && !begins_with(p.website_url@, "http://"@) && !begins_with(p.website_url@, "https://"@)
            ==> p.objection() == Some("website_url must start with http:// or https://"@),
        (p.duration_sec matches Some(d) && !d.in_range()) && !blank(p.audio_drive_file_id@)
            && !blank(p.website_url@) && !blank(p.drive_output_folder_id@) && (begins_with(
            p.website_url@,
            "http://"@,
        ) || begins_with(p.website_url@, "https://"@)) ==> p.objection() == Some(
            "duration_sec must be between 1 and 120 seconds"@,
        ),
{
    reveal_strlit("audio_drive_file_id must not be empty");
    reveal_strlit("website_url must not be empty");
    reveal_strlit("drive_output_folder_id must not be empty");
    reveal_strlit("website_url must start with http:// or https://");
    reveal_strlit("duration_sec must be between 1 and 120 seconds");
    reveal_strlit("unsupported resolution '");
    reveal_strlit("unsupported aspect_ratio '");
    let scheme = "website_url must start with http:// or https://"@;
    assert(scheme.len() == 47);
    assert("audio_drive_file_id must not be empty"@.len() == 37);
    assert("website_url must not be empty"@.len() == 29);
    assert("drive_output_folder_id must not be empty"@.len() == 40);
    assert("duration_sec must be between 1 and 120 seconds"@.len() == 46);
    if p.size() is Err && p.objection() == Some(p.size()->Err_0) {
        let e = p.size()->Err_0;
        if short_edge(p.resolution@) is None {
            assert(e[0] == "unsupported resolution '"@[0]);
        } else {
            assert(e[0] == "unsupported aspect_ratio '"@[0]);
        }
        assert(e[0] == 'u');
        assert(scheme[0] == 'w');
    }
}

/// The diagnostic is asked for exactly by an object whose member
/// `probe_encoders` is true, whatever else it holds.
pub proof fn law_a_true_flag_asks_for_the_probe(request: JsonValue)
    ensures
        asks_probe(request) <==> (request matches JsonValue::Object(members)
            && members.contains_key("probe_encoders"@) && members["probe_encoders"@]
            == JsonValue::Bool(true)),
{
}

/// A video has twenty-five pictures a second.
pub proof fn law_videos_have_25_pictures_a_second()
    ensures
        DEFAULT_FPS == 25,
{
}

}

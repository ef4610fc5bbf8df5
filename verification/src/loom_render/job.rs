//! A render from the request to the report: which service is called next, and
//! what its reply leads to.
use vstd::prelude::*;

use crate::http::{reply_contents, HttpReply, HttpRequest, HttpResponse, RequestContents};
use crate::json::{
    compact_text, document_of_text, empty_object, u64_number, Json, JsonValue,
};
use crate::loom_render::drive::{
    audio_in, audio_request, audio_request_for, capture_request, capture_request_for,
    capture_website, fetch_audio, picture_in, upload_request, upload_request_for, upload_video,
    uploaded_id_in,
};
use crate::loom_render::params::{
    asks_probe, invalid_params, probe_requested, Params, DEFAULT_FPS,
};
use crate::loom_render::render::{Compose, Composed};
use crate::text::{decimal, decimal_text, joined3, law_numerals_stand_for_their_number};

verus! {

/// An accepted request with the size of its video.
pub struct Order {
    pub params: Params,
    pub width: u32,
    pub height: u32,
}

/// Where a render stands, with what it has gathered.
pub enum Job {
    /// The audio is to be downloaded.
    Fetching { order: Order },
    /// The website is to be captured.
    Capturing { order: Order, audio: Vec<u8> },
    /// The video is to be composed.
    Composing { order: Order, audio: Vec<u8>, screenshot: Vec<u8> },
    /// The time is to be read, which names the file.
    Naming { order: Order, composed: Composed },
    /// The video is to be uploaded.
    Uploading { order: Order, composed: Composed, name: String },
    /// The report is ready.
    Reported { report: Json },
}

/// What a request comes to.
pub enum Opened {
    /// The encoders are to be reported, and nothing rendered.
    Probe,
    Started(Job),
}

/// What came of the step that a job was waiting for.
pub enum Event {
    Replied(HttpReply),
    Composed(Result<Composed, String>),
    /// The milliseconds since the epoch.
    Clock(u64),
}

/// The name of a file that was rendered at a time.
pub open spec fn timed_name(millis: u64) -> Seq<char> {
    "loom-"@ + decimal(millis as nat) + ".webm"@
}

/// What is reported of a finished render. Of the video's bytes it tells only
/// how many they are.
pub open spec fn report_document(
    order: Order,
    composed: Composed,
    file_id: Seq<char>,
    name: Seq<char>,
) -> JsonValue {
    empty_object().with("success"@, JsonValue::Bool(true)).with(
        "video_drive_file_id"@,
        JsonValue::Text(file_id),
    ).with("container"@, JsonValue::Text(composed.container@)).with(
        "codec"@,
        JsonValue::Text(composed.video_codec@),
    ).with("audio_codec"@, JsonValue::Text(composed.audio_codec@)).with(
        "duration_sec"@,
        composed.duration_sec@,
    ).with("width"@, JsonValue::Number(u64_number(order.width as u64))).with(
        "height"@,
        JsonValue::Number(u64_number(order.height as u64)),
    ).with("bytes"@, JsonValue::Number(u64_number(composed.bytes@.len() as u64))).with(
        "name"@,
        JsonValue::Text(name),
    )
}

impl Job {
    /// Whether an event is the one that the job waits for.
    pub open spec fn awaits(self, event: Event) -> bool {
        match self {
            Job::Fetching { .. } | Job::Capturing { .. } | Job::Uploading {
                ..
            } => event is Replied,
            Job::Composing { .. } => event is Composed,
            Job::Naming { .. } => event is Clock,
            Job::Reported { .. } => false,
        }
    }

    /// The request that the job waits to see answered.
    pub open spec fn pending(self) -> Option<RequestContents> {
        match self {
            Job::Fetching { order } => Some(audio_request_for(order.params.audio_drive_file_id@)),
            Job::Capturing { order, .. } => Some(
                capture_request_for(order.params.website_url@, order.width, order.height),
            ),
            Job::Uploading { order, composed, name } => Some(
                upload_request_for(
                    order.params.drive_output_folder_id@,
                    name@,
                    composed.bytes@,
                    composed.mime_type@,
                ),
            ),
            _ => None,
        }
    }

    /// What ends the job when the event comes that it waits for.
    pub open spec fn failure(self, event: Event) -> Option<Seq<char>> {
        match (self, event) {
            (Job::Fetching { order }, Event::Replied(reply)) => match audio_in(
                order.params.audio_drive_file_id@,
                reply_contents(reply),
            ) {
                Ok(_) => None,
                Err(e) => Some(e),
            },
            (Job::Capturing { .. }, Event::Replied(reply)) => match picture_in(
                reply_contents(reply),
            ) {
                Ok(_) => None,
                Err(e) => Some(e),
            },
            (Job::Composing { .. }, Event::Composed(result)) => match result {
                Ok(_) => None,
                Err(e) => Some(e@),
            },
            (Job::Uploading { .. }, Event::Replied(reply)) => match uploaded_id_in(
                reply_contents(reply),
            ) {
                Ok(_) => None,
                Err(e) => Some(e),
            },
            _ => None,
        }
    }

    /// Whether `next` is what the job becomes when the event comes that it
    /// waits for.
    pub open spec fn leads_to(self, event: Event, next: Job) -> bool {
        match (self, event) {
            (Job::Fetching { order }, Event::Replied(reply)) => {
                &&& next matches Job::Capturing { order: same, audio }
                &&& same == order
                &&& audio_in(
                    order.params.audio_drive_file_id@,
                    reply_contents(reply),
                ) == Ok::<Seq<u8>, Seq<char>>(audio@)
            },
            (Job::Capturing { order, audio }, Event::Replied(reply)) => {
                &&& next matches Job::Composing { order: same, audio: kept, screenshot }
                &&& same == order
                &&& kept == audio
                &&& picture_in(reply_contents(reply)) == Ok::<Seq<u8>, Seq<char>>(screenshot@)
            },
            (
                Job::Composing { order, .. },
                Event::Composed(Ok(composed)),
            ) => match order.params.output_name {
                Some(given) => {
                    &&& next matches Job::Uploading { order: same, composed: made, name }
                    &&& same == order
                    &&& made == composed
                    &&& name@ == given@
                },
                None => next == (Job::Naming { order, composed }),
            },
            (Job::Naming { order, composed }, Event::Clock(millis)) => {
                &&& next matches Job::Uploading { order: same, composed: made, name }
                &&& same == order
                &&& made == composed
                &&& name@ == timed_name(millis)
            },
            (Job::Uploading { order, composed, name }, Event::Replied(reply)) => {
                &&& next matches Job::Reported { report }
                &&& uploaded_id_in(reply_contents(reply)) matches Ok(file_id)
                &&& report@ == report_document(order, composed, file_id, name@)
            },
            _ => false,
        }
    }

    /// Opens a request, given its text and what came of reading its
    /// parameters. The diagnostic goes first: it needs none of the parameters
    /// of a render.
    pub fn open(params_json: &str, params: Result<Params, String>) -> (r: Result<Opened, String>)
        ensures
            if document_of_text(params_json@) matches Ok(request) && asks_probe(request) {
                r matches Ok(Opened::Probe)
            } else {
                match params {
                    Err(why) => r matches Err(e) && e@ == "invalid params: "@ + why@,
                    Ok(params) => match r {
                        Ok(opened) => {
                            &&& params.objection() is None
                            &&& opened matches Opened::Started(job)
                            &&& job matches Job::Fetching { order }
                            &&& order.params == params
                            &&& params.size() == Ok::<(int, int), Seq<char>>(
                                (order.width as int, order.height as int),
                            )
                        },
                        Err(e) => params.objection() == Some(e@),
                    },
                }
            },
    {
        if probe_requested(params_json) {
            return Ok(Opened::Probe);
        }
        match params {
            Err(why) => Err(invalid_params(why.as_str())),
            Ok(params) => Ok(Opened::Started(Job::start(params)?)),
        }
    }

    /// Accepts a request, or refuses it in the words of its first objection.
    pub fn start(params: Params) -> (r: Result<Job, String>)
        ensures
            match r {
                Ok(job) => {
                    &&& params.objection() is None
                    &&& job matches Job::Fetching { order }
                    &&& order.params == params
                    &&& params.size() == Ok::<(int, int), Seq<char>>(
                        (order.width as int, order.height as int),
                    )
                },
                Err(e) => params.objection() == Some(e@),
            },
    {
        params.validate()?;
        let (width, height) = params.dimensions()?;
        Ok(Job::Fetching { order: Order { params, width, height } })
    }

    /// The request to make now, where the job waits for a reply.
    pub fn request(&self) -> (r: Option<HttpRequest>)
        ensures
            match r {
                Some(request) => self.pending() == Some(request@),
                None => self.pending() is None,
            },
    {
        match self {
            Job::Fetching { order } => Some(
                audio_request(order.params.audio_drive_file_id.as_str()),
            ),
            Job::Capturing { order, .. } => Some(
                capture_request(order.params.website_url.as_str(), order.width, order.height),
            ),
            Job::Uploading { order, composed, name } => Some(
                upload_request(
                    order.params.drive_output_folder_id.as_str(),
                    name.as_str(),
                    composed.bytes.as_slice(),
                    composed.mime_type,
                ),
            ),
            _ => None,
        }
    }

    /// What to compose now, where the job waits for the video.
    pub fn composition(&self) -> (r: Option<Compose<'_>>)
        ensures
            match r {
                Some(c) => {
                    &&& *self matches Job::Composing { order, audio, screenshot }
                    &&& c.screenshot@ == screenshot@
                    &&& c.audio_mp3@ == audio@
                    &&& c.width == order.width
                    &&& c.height == order.height
                    &&& c.fps == DEFAULT_FPS
                    &&& c.duration_sec == order.params.duration_sec
                },
                None => !(*self is Composing),
            },
    {
        match self {
            Job::Composing { order, audio, screenshot } => Some(
                Compose {
                    screenshot: screenshot.as_slice(),
                    audio_mp3: audio.as_slice(),
                    width: order.width,
                    height: order.height,
                    fps: DEFAULT_FPS,
                    duration_sec: order.params.duration_sec,
                },
            ),
            _ => None,
        }
    }

    /// Goes on with what came of the step that the job was waiting for.
    pub fn advance(self, event: Event) -> (r: Result<Job, String>)
        requires
            self.awaits(event),
        ensures
            match r {
                Ok(next) => self.failure(event) is None && self.leads_to(event, next),
                Err(e) => self.failure(event) == Some(e@),
            },
    {
        match (self, event) {
            (Job::Fetching { order }, Event::Replied(reply)) => {
                let audio = fetch_audio(order.params.audio_drive_file_id.as_str(), reply)?;
                Ok(Job::Capturing { order, audio })
            },
            (Job::Capturing { order, audio }, Event::Replied(reply)) => {
                let screenshot = capture_website(reply)?;
                Ok(Job::Composing { order, audio, screenshot })
            },
            (Job::Composing { order, .. }, Event::Composed(result)) => {
                let composed = result?;
                let given = match &order.params.output_name {
                    Some(name) => Some(name.clone()),
                    None => None,
                };
                match given {
                    Some(name) => Ok(Job::Uploading { order, composed, name }),
                    None => Ok(Job::Naming { order, composed }),
                }
            },
            (Job::Naming { order, composed }, Event::Clock(millis)) => {
                let number = decimal_text(millis);
                let name = joined3("loom-", number.as_str(), ".webm");
                Ok(Job::Uploading { order, composed, name })
            },
            (Job::Uploading { order, composed, name }, Event::Replied(reply)) => {
                let file_id = upload_video(reply)?;
                Ok(Job::Reported { report: report_of(&order, &composed, file_id.as_str(), name.as_str()) })
            },
            (job, _) => Ok(job),
        }
    }

    /// The report as JSON text, once it is ready.
    pub fn output(&self) -> (r: Option<String>)
        ensures
            match r {
                Some(text) => {
                    &&& *self matches Job::Reported { report }
                    &&& text@ == compact_text(report@)
                },
                None => !(*self is Reported),
            },
    {
        match self {
            Job::Reported { report } => Some(report.to_text()),
            _ => None,
        }
    }
}

/// The report of a finished render.
pub fn report_of(order: &Order, composed: &Composed, file_id: &str, name: &str) -> (r: Json)
    ensures
        r@ == report_document(*order, *composed, file_id@, name@),
{
    Json::object().with("success", Json::Bool(true)).with(
        "video_drive_file_id",
        Json::of_text(file_id),
    ).with("container", Json::of_text(composed.container)).with(
        "codec",
        Json::of_text(composed.video_codec),
    ).with("audio_codec", Json::of_text(composed.audio_codec)).with(
        "duration_sec",
        composed.duration_sec.copy(),
    ).with("width", Json::of_u64(order.width as u64)).with(
        "height",
        Json::of_u64(order.height as u64),
    ).with("bytes", Json::of_u64(composed.bytes.len() as u64)).with("name", Json::of_text(name))
}

/// How far a job is.
pub open spec fn job_progress(job: Job) -> int {
    match job {
        Job::Fetching { .. } => 0,
        Job::Capturing { .. } => 1,
        Job::Composing { .. } => 2,
        Job::Naming { .. } => 3,
        Job::Uploading { .. } => 4,
        Job::Reported { .. } => 5,
    }
}

/// A render goes through its stages in order: download, capture, compose,
/// upload, report. Only naming the file by the time may be left out, and that
/// is so exactly if the request names it.
pub proof fn law_stages_come_in_order(job: Job, event: Event, next: Job)
    requires
        job.awaits(event),
        job.failure(event) is None,
        job.leads_to(event, next),
    ensures
        job_progress(next) > job_progress(job),
        job_progress(next) == job_progress(job) + 1 || (job is Composing && next is Uploading),
        job matches Job::Composing { order, .. } ==> (next is Naming
            <==> order.params.output_name is None),
{
}

/// The report tells nothing of a video's bytes but their number: videos of the
/// same length and kind are reported alike.
pub proof fn law_report_leaves_out_the_video(
    order: Order,
    first: Composed,
    second: Composed,
    file_id: Seq<char>,
    name: Seq<char>,
)
    requires
        first.bytes@.len() == second.bytes@.len(),
        first.container@ == second.container@,
        first.video_codec@ == second.video_codec@,
        first.audio_codec@ == second.audio_codec@,
        first.duration_sec@ == second.duration_sec@,
    ensures
        report_document(order, first, file_id, name) == report_document(
            order,
            second,
            file_id,
            name,
        ),
{
}

/// The report names the file that the upload was answered with, and the name
/// that it was uploaded under.
pub proof fn law_report_names_the_uploaded_file(
    order: Order,
    composed: Composed,
    file_id: Seq<char>,
    name: Seq<char>,
)
    ensures
        ({
            let report = report_document(order, composed, file_id, name);
            &&& report.field("success"@) == JsonValue::Bool(true)
            &&& report.field("video_drive_file_id"@) == JsonValue::Text(file_id)
            &&& report.field("name"@) == JsonValue::Text(name)
        }),
{
    reveal_strlit("success");
    reveal_strlit("video_drive_file_id");
    reveal_strlit("container");
    reveal_strlit("codec");
    reveal_strlit("audio_codec");
    reveal_strlit("duration_sec");
    reveal_strlit("width");
    reveal_strlit("height");
    reveal_strlit("bytes");
    reveal_strlit("name");
    assert("success"@.len() == 7 && "video_drive_file_id"@.len() == 19);
    assert("container"@.len() == 9 && "codec"@.len() == 5 && "audio_codec"@.len() == 11);
    assert("duration_sec"@.len() == 12 && "width"@.len() == 5 && "height"@.len() == 6);
    assert("bytes"@.len() == 5 && "name"@.len() == 4);
}

/// The report tells each thing under its own name: what the upload was answered
/// with, the container, the codecs and the length of the video, its size in
/// pixels and in bytes, and the name that it was uploaded under; nothing else.
pub proof fn law_the_report_tells_each_thing(
    order: Order,
    composed: Composed,
    file_id: Seq<char>,
    name: Seq<char>,
    other: Seq<char>,
)
    ensures
        ({
            let report = report_document(order, composed, file_id, name);
            &&& report.field("success"@) == JsonValue::Bool(true)
            &&& report.field("video_drive_file_id"@) == JsonValue::Text(file_id)
            &&& report.field("container"@) == JsonValue::Text(composed.container@)
            &&& report.field("codec"@) == JsonValue::Text(composed.video_codec@)
            &&& report.field("audio_codec"@) == JsonValue::Text(composed.audio_codec@)
            &&& report.field("duration_sec"@) == composed.duration_sec@
            &&& report.field("width"@) == JsonValue::Number(u64_number(order.width as u64))
            &&& report.field("height"@) == JsonValue::Number(u64_number(order.height as u64))
            &&& report.field("bytes"@) == JsonValue::Number(
                u64_number(composed.bytes@.len() as u64),
            )
            &&& report.field("name"@) == JsonValue::Text(name)
            &&& report.member(other) is Some ==> other == "success"@ || other == "video_drive_file_id"@ || other == "container"@ || other == "codec"@ || other == "audio_codec"@ || other == "duration_sec"@ || other == "width"@ || other == "height"@ || other == "bytes"@ || other == "name"@
        }),
{
    reveal_strlit("success");
    reveal_strlit("video_drive_file_id");
    reveal_strlit("container");
    reveal_strlit("codec");
    reveal_strlit("audio_codec");
    reveal_strlit("duration_sec");
    reveal_strlit("width");
    reveal_strlit("height");
    reveal_strlit("bytes");
    reveal_strlit("name");
    assert("success"@.len() != "video_drive_file_id"@.len());
    assert("success"@.len() != "container"@.len());
    assert("success"@.len() != "codec"@.len());
    assert("success"@.len() != "audio_codec"@.len());
    assert("success"@.len() != "duration_sec"@.len());
    assert("success"@.len() != "width"@.len());
    assert("success"@.len() != "height"@.len());
    assert("success"@.len() != "bytes"@.len());
    assert("success"@.len() != "name"@.len());
    assert("video_drive_file_id"@.len() != "container"@.len());
    assert("video_drive_file_id"@.len() != "codec"@.len());
    assert("video_drive_file_id"@.len() != "audio_codec"@.len());
    assert("video_drive_file_id"@.len() != "duration_sec"@.len());
    assert("video_drive_file_id"@.len() != "width"@.len());
    assert("video_drive_file_id"@.len() != "height"@.len());
    assert("video_drive_file_id"@.len() != "bytes"@.len());
    assert("video_drive_file_id"@.len() != "name"@.len());
    assert("container"@.len() != "codec"@.len());
    assert("container"@.len() != "audio_codec"@.len());
    assert("container"@.len() != "duration_sec"@.len());
    assert("container"@.len() != "width"@.len());
    assert("container"@.len() != "height"@.len());
    assert("container"@.len() != "bytes"@.len());
    assert("container"@.len() != "name"@.len());
    assert("codec"@.len() != "audio_codec"@.len());
    assert("codec"@.len() != "duration_sec"@.len());
    assert("codec"@[0] != "width"@[0]);
    assert("codec"@.len() != "height"@.len());
    assert("codec"@[0] != "bytes"@[0]);
    assert("codec"@.len() != "name"@.len());
    assert("audio_codec"@.len() != "duration_sec"@.len());
    assert("audio_codec"@.len() != "width"@.len());
    assert("audio_codec"@.len() != "height"@.len());
    assert("audio_codec"@.len() != "bytes"@.len());
    assert("audio_codec"@.len() != "name"@.len());
    assert("duration_sec"@.len() != "width"@.len());
    assert("duration_sec"@.len() != "height"@.len());
    assert("duration_sec"@.len() != "bytes"@.len());
    assert("duration_sec"@.len() != "name"@.len());
    assert("width"@.len() != "height"@.len());
    assert("width"@[0] != "bytes"@[0]);
    assert("width"@.len() != "name"@.len());
    assert("height"@.len() != "bytes"@.len());
    assert("height"@.len() != "name"@.len());
    assert("bytes"@.len() != "name"@.len());
}

/// A file that is named by the time has a name of its own for each millisecond,
/// and that of a WebM file.
pub proof fn law_times_give_different_names(millis: u64, other: u64)
    ensures
        timed_name(millis).take(5) == "loom-"@,
        timed_name(millis).len() == 5 + decimal(millis as nat).len() + 5,
        timed_name(millis).subrange(5, 5 + decimal(millis as nat).len() as int) == decimal(
            millis as nat,
        ),
        timed_name(millis).skip(5 + decimal(millis as nat).len() as int) == ".webm"@,
        timed_name(millis) == timed_name(other) ==> millis == other,
{
    reveal_strlit("loom-");
    reveal_strlit(".webm");
    assert("loom-"@.len() == 5);
    assert(".webm"@.len() == 5);
    let n = decimal(millis as nat);
    let m = decimal(other as nat);
    assert(timed_name(millis).take(5) =~= "loom-"@);
    assert(timed_name(millis).subrange(5, 5 + n.len() as int) =~= n);
    assert(timed_name(millis).skip(5 + n.len() as int) =~= ".webm"@);
    if timed_name(millis) == timed_name(other) {
        assert(timed_name(other).len() == 5 + m.len() + 5);
        assert(timed_name(other).subrange(5, 5 + m.len() as int) =~= m);
        law_numerals_stand_for_their_number(millis as nat);
        law_numerals_stand_for_their_number(other as nat);
    }
}

/// What a render gathers is what the services brought. The audio is the body
/// of the download, the screenshot that of the capture; both are composed as
/// they came. The order stays the same throughout.
pub proof fn law_the_services_bodies_are_composed(
    order: Order,
    download: HttpResponse,
    capture: HttpResponse,
    second: Job,
    third: Job,
)
    requires
        (Job::Fetching { order }).leads_to(Event::Replied(Ok(download)), second),
        second.leads_to(Event::Replied(Ok(capture)), third),
    ensures
        second matches Job::Capturing { order: same, audio } && same == order && audio@
            == download.body@,
        third matches Job::Composing { order: same, audio, screenshot } && same == order && audio@
            == download.body@ && screenshot@ == capture.body@,
        200 <= download.status <= 299 && download.body@.len() > 0,
        200 <= capture.status <= 299 && capture.body@.len() > 0,
{
}

/// What is composed is uploaded as it is, into the folder that was asked for,
/// under the name that was asked for, or where none was, under that of the
/// time.
pub proof fn law_the_composed_video_is_uploaded(
    order: Order,
    audio: Vec<u8>,
    screenshot: Vec<u8>,
    composed: Composed,
    millis: u64,
    next: Job,
    last: Job,
)
    requires
        (Job::Composing { order, audio, screenshot }).leads_to(
            Event::Composed(Ok(composed)),
            next,
        ),
        order.params.output_name is None ==> next.leads_to(Event::Clock(millis), last),
        order.params.output_name is Some ==> last == next,
    ensures
        last matches Job::Uploading { order: same, composed: made, name } && same == order && made
            == composed && name@ == (match order.params.output_name {
            Some(given) => given@,
            None => "loom-"@ + decimal(millis as nat) + ".webm"@,
        }) && last.pending() == Some(
            upload_request_for(
                order.params.drive_output_folder_id@,
                name@,
                composed.bytes@,
                composed.mime_type@,
            ),
        ),
{
}

/// A render asks the drive for the audio that was asked for, and the screenshot
/// service for the website that was asked for, in the size of the video.
pub proof fn law_renders_ask_for_what_was_asked_for(order: Order, audio: Vec<u8>)
    ensures
        (Job::Fetching { order }).pending() == Some(
            audio_request_for(order.params.audio_drive_file_id@),
        ),
        (Job::Capturing { order, audio }).pending() == Some(
            capture_request_for(order.params.website_url@, order.width, order.height),
        ),
{
}

/// A stage fails exactly if what it waits for is no success: a reply without a
/// status of success or without what it should bring, or a video that could not
/// be composed, whose words are handed on. Naming never fails.
pub proof fn law_stages_fail_exactly_without_success(
    order: Order,
    audio: Vec<u8>,
    screenshot: Vec<u8>,
    response: HttpResponse,
    composed: Composed,
    why: String,
    millis: u64,
)
    ensures
        (Job::Fetching { order }).failure(Event::Replied(Ok(response))) is None <==> 200
            <= response.status <= 299 && response.body@.len() > 0,
        (Job::Fetching { order }).failure(Event::Replied(Err(why))) is Some,
        (Job::Capturing { order, audio }).failure(Event::Replied(Ok(response))) is None <==> 200
            <= response.status <= 299 && response.body@.len() > 0,
        (Job::Capturing { order, audio }).failure(Event::Replied(Err(why))) is Some,
        (Job::Composing { order, audio, screenshot }).failure(
            Event::Composed(Ok(composed)),
        ) is None,
        (Job::Composing { order, audio, screenshot }).failure(Event::Composed(Err(why))) == Some(
            why@,
        ),
        (Job::Naming { order, composed }).failure(Event::Clock(millis)) is None,
{
}

/// The report is made of the id that the upload was answered with, and of the
/// video and the name that were uploaded.
pub proof fn law_the_report_is_of_the_upload(
    order: Order,
    composed: Composed,
    name: String,
    response: HttpResponse,
    next: Job,
)
    requires
        (Job::Uploading { order, composed, name }).leads_to(Event::Replied(Ok(response)), next),
    ensures
        next matches Job::Reported { report } && (exists|id: Seq<char>|
            report@.field("video_drive_file_id"@) == JsonValue::Text(id)
                && #[trigger] uploaded_id_in(Ok((response.status, response.body@))) == Ok::<
                Seq<char>,
                Seq<char>,
            >(id)) && report@.field("name"@) == JsonValue::Text(name@) && report@.field("bytes"@)
            == JsonValue::Number(u64_number(composed.bytes@.len() as u64)),
{
    let id = uploaded_id_in(Ok((response.status, response.body@)))->Ok_0;
    law_the_report_tells_each_thing(order, composed, id, name@, name@);
}

/// A stage that waits for a reply fails in the words of the service: those for
/// the reply that never came, or for the status that was no success. A render
/// that waits for none asks for nothing.
pub proof fn law_stages_fail_in_the_words_of_their_service(
    order: Order,
    audio: Vec<u8>,
    screenshot: Vec<u8>,
    composed: Composed,
    name: String,
    report: Json,
    response: HttpResponse,
    why: String,
)
    ensures
        ({
            let fetching = Job::Fetching { order };
            let capturing = Job::Capturing { order, audio };
            let uploading = Job::Uploading { order, composed, name };
            let lost = Event::Replied(Err(why));
            let came = Event::Replied(Ok(response));
            let number = decimal(response.status as nat);
            let refused = !(200 <= response.status <= 299);
            &&& fetching.failure(lost) == Some("drive download request failed: "@ + why@)
            &&& capturing.failure(lost) == Some("screenshot request failed: "@ + why@)
            &&& uploading.failure(lost) == Some("drive upload request failed: "@ + why@)
            &&& refused ==> fetching.failure(came) == Some(
                "drive download returned status "@ + number,
            )
            &&& refused ==> capturing.failure(came) == Some(
                "screenshot service returned status "@ + number,
            )
            &&& refused ==> uploading.failure(came) == Some(
                "drive upload returned status "@ + number,
            )
            &&& uploading.failure(came) is None <==> uploaded_id_in(
                Ok((response.status, response.body@)),
            ) is Ok
            &&& (Job::Composing { order, audio, screenshot }).pending() is None
            &&& (Job::Naming { order, composed }).pending() is None
            &&& (Job::Reported { report }).pending() is None
        }),
{
}

/// Each stage waits for one kind of event: those that made a request for the
/// reply, the composing one for the video, the naming one for the time. A
/// render that is reported waits for nothing.
pub proof fn law_stages_wait_for_what_they_asked(job: Job, event: Event)
    ensures
        job is Fetching || job is Capturing || job is Uploading ==> job.awaits(event) == (
        event is Replied),
        job is Composing ==> job.awaits(event) == (event is Composed),
        job is Naming ==> job.awaits(event) == (event is Clock),
        job is Reported ==> !job.awaits(event),
        job.pending() is Some <==> job is Fetching || job is Capturing || job is Uploading,
{
}

}

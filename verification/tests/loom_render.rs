use ironclaw::http::HttpResponse;
use ironclaw::json::Json;
use ironclaw::loom_render::audio::{
    audio_settings, audio_start, make_frame, opus_ok, plan_audio, AudioPlan, DecodedAudio,
    DecodedFrame, Mp3Decoding, Mp3Step, MAX_SAMPLES_PER_CH,
};
use ironclaw::loom_render::drive::{
    audio_request, capture_request, capture_website, fetch_audio, upload_request, upload_video,
};
use ironclaw::loom_render::encode::{
    plan_encode, AudioTrack, EncodePlan, ImageCodec, ImageDecoding, ImageStep, Stage,
};
use ironclaw::loom_render::errors::{error_code, respond, structured_error};
use ironclaw::loom_render::job::{Event, Job, Opened};
use ironclaw::loom_render::params::{
    default_aspect, default_resolution, invalid_params, probe_requested, Params, DEFAULT_FPS,
    DESCRIPTION, SCHEMA,
};
use ironclaw::loom_render::render::{
    has_audio, probe_report, Compose, Composed, EncoderAvailability, Triple,
};
use ironclaw::loom_render::seconds::{video_duration, Seconds};

fn seconds(s: f64) -> Seconds {
    Seconds { bits: s.to_bits() }
}

fn params() -> Params {
    Params {
        audio_drive_file_id: "a".to_string(),
        website_url: "https://x.com".to_string(),
        drive_output_folder_id: "f".to_string(),
        aspect_ratio: default_aspect(),
        resolution: default_resolution(),
        duration_sec: None,
        output_name: None,
        probe_encoders: false,
    }
}

fn all_encoders() -> EncoderAvailability {
    EncoderAvailability {
        vp9: true,
        av1: true,
        mpeg4: true,
        opus: true,
        aac: true,
        vorbis: true,
    }
}

fn no_encoders() -> EncoderAvailability {
    EncoderAvailability::probe(|_| false)
}

#[test]
fn renderer_errors_have_stable_stage_codes() {
    assert_eq!(
        error_code("drive download returned status 404"),
        "loom_drive_download_failed"
    );
    assert_eq!(
        error_code("screenshot service returned status 502"),
        "loom_screenshot_failed"
    );
    assert_eq!(
        error_code("drive upload returned status 403"),
        "loom_drive_upload_failed"
    );
    assert_eq!(
        error_code("video encoder libvpx-vp9 not found"),
        "loom_encode_failed"
    );
}

#[test]
fn defaults_are_1080p_16_9() {
    let p = params();
    assert_eq!(p.resolution, "1080p");
    assert_eq!(p.aspect_ratio, "16:9");
    assert_eq!(p.dimensions().unwrap(), (1920, 1080));
}

#[test]
fn dimensions_are_always_even() {
    for res in ["720p", "1080p"] {
        for ar in ["16:9", "9:16", "1:1"] {
            let mut p = params();
            p.resolution = res.to_string();
            p.aspect_ratio = ar.to_string();
            let (w, h) = p.dimensions().unwrap();
            assert_eq!(w % 2, 0, "{res} {ar} width {w} must be even");
            assert_eq!(h % 2, 0, "{res} {ar} height {h} must be even");
        }
    }
}

#[test]
fn rejects_out_of_range_duration() {
    let mut p = params();
    p.duration_sec = Some(seconds(0.5));
    assert!(p.validate().is_err());
    p.duration_sec = Some(seconds(999.0));
    assert!(p.validate().is_err());
    p.duration_sec = Some(seconds(42.0));
    assert!(p.validate().is_ok());
}

#[test]
fn rejects_non_http_url() {
    let mut p = params();
    p.website_url = "file:///etc/passwd".to_string();
    assert!(p.validate().is_err(), "must reject non-http schemes");
}

#[test]
fn probe_needs_no_required_fields() {
    // The whole point of the diagnostic: {"probe_encoders":true} alone must
    // reach the probe, without audio_drive_file_id / website_url / folder.
    assert!(probe_requested(r#"{"probe_encoders":true}"#));
    let out = probe_report(&no_encoders());
    let v: serde_json::Value = serde_json::from_str(&out).unwrap();
    assert_eq!(v["probe"], true);
}

#[test]
fn the_probe_goes_before_the_parameters() {
    let probe = r#"{"probe_encoders":true}"#;
    assert!(matches!(
        Job::open(probe, Err("missing field".to_string())),
        Ok(Opened::Probe)
    ));
    assert!(matches!(Job::open(probe, Ok(params())), Ok(Opened::Probe)));
    assert!(matches!(
        Job::open("{}", Ok(params())),
        Ok(Opened::Started(Job::Fetching { .. }))
    ));
    let e = Job::open("{}", Err("missing field".to_string())).err().unwrap();
    assert_eq!(e, "invalid params: missing field");
    let mut p = params();
    p.resolution = "4k".to_string();
    let e = Job::open("{}", Ok(p)).err().unwrap();
    assert_eq!(e, "unsupported resolution '4k' (720p or 1080p)");
}

#[test]
fn schema_is_valid_json_and_matches_the_struct() {
    let schema: serde_json::Value = serde_json::from_str(SCHEMA).expect("schema must be JSON");
    let props = schema["properties"].as_object().unwrap();
    for required in [
        "audio_drive_file_id",
        "website_url",
        "drive_output_folder_id",
    ] {
        assert!(props.contains_key(required), "schema missing {required}");
    }
    // additionalProperties:false means a field the struct accepts but the
    // schema omits can never be sent by the model.
    for field in ["aspect_ratio", "resolution", "duration_sec", "output_name"] {
        assert!(props.contains_key(field), "schema missing {field}");
    }
    assert!(DESCRIPTION.starts_with("Compose a personalized Loom-style video from a Drive-hosted"));
}

#[test]
fn prefers_webm_vp9_opus() {
    let a = all_encoders();
    let t = a.choose_triple().unwrap();
    assert_eq!(t.container, "webm");
    assert_eq!(t.video, "libvpx-vp9");
    assert_eq!(t.audio, "opus");
}

#[test]
fn falls_back_to_mp4_mpeg4_aac_without_opus() {
    let a = EncoderAvailability {
        vp9: true,
        av1: true,
        mpeg4: true,
        opus: false,
        aac: true,
        vorbis: true,
    };
    let t = a.choose_triple().unwrap();
    assert_eq!(t.container, "mp4");
    assert_eq!(t.video, "mpeg4");
    assert_eq!(t.audio, "aac");
}

#[test]
fn routes_aac_audio_to_mp4() {
    let a = all_encoders();
    let t = a.choose_for_audio("aac").unwrap();
    assert_eq!(t.container, "mp4");
    assert_eq!(t.video, "mpeg4");
    assert_eq!(t.audio, "aac");
}

#[test]
fn errors_when_no_pair_is_usable() {
    let a = EncoderAvailability {
        vp9: true,
        av1: false,
        mpeg4: false,
        opus: false,
        aac: false,
        vorbis: false,
    };
    assert!(
        a.choose_triple().is_err(),
        "video without audio is not a usable pair"
    );
}

#[test]
fn the_want_of_a_pair_lists_the_encoders() {
    let a = EncoderAvailability {
        vp9: true,
        ..no_encoders()
    };
    assert_eq!(
        a.choose_triple().unwrap_err(),
        format!("no usable (video,audio) encoder pair in this ffmpeg build: {a:?}")
    );
    assert_eq!(a.to_text(), format!("{a:?}"));
}

#[test]
fn av1_is_the_last_resort_in_mp4() {
    let a = EncoderAvailability {
        av1: true,
        aac: true,
        ..no_encoders()
    };
    let t = a.choose_triple().unwrap();
    assert_eq!(
        t,
        Triple {
            video: "libaom-av1",
            audio: "aac",
            container: "mp4",
            mime_type: "video/mp4"
        }
    );
    assert_eq!(a.choose_for_audio("aac").unwrap(), t);
}

#[test]
fn vorbis_goes_into_webm_and_unknown_audio_nowhere() {
    let a = all_encoders();
    let t = a.choose_for_audio("vorbis").unwrap();
    assert_eq!((t.video, t.audio, t.mime_type), ("libvpx-vp9", "vorbis", "video/webm"));
    assert_eq!(
        a.choose_for_audio("flac").unwrap_err(),
        "no compatible video/container pair for audio codec flac"
    );
    assert!(no_encoders().choose_for_audio("opus").is_err());
}

#[test]
fn probing_asks_for_every_encoder_by_name() {
    let a = EncoderAvailability::probe(|name| name == "libvpx-vp9" || name == "vorbis");
    assert_eq!(
        a,
        EncoderAvailability {
            vp9: true,
            vorbis: true,
            ..no_encoders()
        }
    );
}

#[test]
fn the_probe_report_tells_the_choice() {
    let v: serde_json::Value = serde_json::from_str(&probe_report(&all_encoders())).unwrap();
    assert_eq!(v["success"], true);
    assert_eq!(v["encoders"]["libaom-av1"], true);
    assert_eq!(v["encoders"].as_object().unwrap().len(), 6);
    assert_eq!(v["chosen"]["video"], "libvpx-vp9");
    assert_eq!(v["chosen"]["audio"], "opus");
    assert_eq!(v["chosen"]["container"], "webm");
    assert_eq!(v["chosen"]["mime_type"], "video/webm");
    let v: serde_json::Value = serde_json::from_str(&probe_report(&no_encoders())).unwrap();
    assert_eq!(
        v["chosen"]["error"],
        no_encoders().choose_triple().unwrap_err()
    );
}

#[test]
fn dimensions_of_every_combination() {
    let expected = [
        ("720p", "16:9", (1280, 720)),
        ("720p", "9:16", (720, 1280)),
        ("720p", "1:1", (720, 720)),
        ("1080p", "16:9", (1920, 1080)),
        ("1080p", "9:16", (1080, 1920)),
        ("1080p", "1:1", (1080, 1080)),
    ];
    for (res, ar, size) in expected {
        let mut p = params();
        p.resolution = res.to_string();
        p.aspect_ratio = ar.to_string();
        assert_eq!(p.dimensions().unwrap(), size);
    }
}

#[test]
fn each_objection_has_its_words() {
    let mut p = params();
    p.audio_drive_file_id = " \u{3000}\t".to_string();
    assert_eq!(p.validate().unwrap_err(), "audio_drive_file_id must not be empty");
    let mut p = params();
    p.website_url = String::new();
    assert_eq!(p.validate().unwrap_err(), "website_url must not be empty");
    let mut p = params();
    p.drive_output_folder_id = "\n".to_string();
    assert_eq!(p.validate().unwrap_err(), "drive_output_folder_id must not be empty");
    let mut p = params();
    p.website_url = "ftp://x".to_string();
    assert_eq!(
        p.validate().unwrap_err(),
        "website_url must start with http:// or https://"
    );
    let mut p = params();
    p.duration_sec = Some(seconds(f64::NAN));
    assert_eq!(
        p.validate().unwrap_err(),
        "duration_sec must be between 1 and 120 seconds"
    );
    let mut p = params();
    p.resolution = "4k".to_string();
    assert_eq!(
        p.validate().unwrap_err(),
        "unsupported resolution '4k' (720p or 1080p)"
    );
    let mut p = params();
    p.aspect_ratio = "4:3".to_string();
    assert_eq!(
        p.validate().unwrap_err(),
        "unsupported aspect_ratio '4:3' (16:9, 9:16 or 1:1)"
    );
    assert_eq!(invalid_params("why"), "invalid params: why");
}

#[test]
fn refused_requests_have_the_code_of_invalid_input() {
    let mut p = params();
    p.website_url = "ftp://x".to_string();
    assert_eq!(error_code(&p.validate().unwrap_err()), "loom_invalid_input");
    p.website_url = "http://x".to_string();
    p.duration_sec = Some(seconds(121.0));
    assert_eq!(error_code(&p.validate().unwrap_err()), "loom_invalid_input");
    p.duration_sec = None;
    p.resolution = "encode".to_string();
    assert_eq!(error_code(&p.validate().unwrap_err()), "loom_encode_failed");
    assert_eq!(error_code("invalid params: x"), "loom_invalid_input");
    assert_eq!(error_code("mux"), "loom_encode_failed");
    assert_eq!(error_code("anything else"), "loom_render_failed");
    assert_eq!(error_code(""), "loom_render_failed");
}

#[test]
fn durations_are_compared_as_numbers() {
    for d in [1.0, 1.5, 2.0, 10.0, 119.999, 120.0] {
        assert!(seconds(d).is_in_range(), "{d}");
        assert_eq!(video_duration(Some(seconds(d)), None), seconds(d));
    }
    for d in [0.999_999, 0.0, -0.0, -5.0, f64::NEG_INFINITY] {
        assert!(!seconds(d).is_in_range(), "{d}");
        assert_eq!(video_duration(Some(seconds(d)), None), seconds(1.0));
    }
    for d in [120.000_001, 1e300, f64::INFINITY] {
        assert!(!seconds(d).is_in_range(), "{d}");
        assert_eq!(video_duration(Some(seconds(d)), None), seconds(120.0));
    }
    assert!(!seconds(f64::NAN).is_in_range());
    assert_eq!(video_duration(Some(seconds(f64::NAN)), None), seconds(f64::NAN));
    assert_eq!(video_duration(None, None), seconds(10.0));
}

#[test]
fn the_duration_defaults_to_the_audio_length() {
    assert_eq!(video_duration(None, Some(seconds(37.25))), seconds(37.25));
    assert_eq!(video_duration(None, Some(seconds(0.25))), seconds(1.0));
    assert_eq!(video_duration(None, Some(seconds(600.0))), seconds(120.0));
    assert_eq!(
        video_duration(Some(seconds(5.0)), Some(seconds(37.25))),
        seconds(5.0)
    );
}

#[test]
fn probe_is_asked_for_by_a_true_flag_only() {
    assert!(!probe_requested(r#"{"probe_encoders":false}"#));
    assert!(!probe_requested(r#"{"probe_encoders":"true"}"#));
    assert!(!probe_requested(r#"[true]"#));
    assert!(!probe_requested("not json"));
    assert!(probe_requested(r#"{"probe_encoders":true,"website_url":3}"#));
}

#[test]
fn errors_are_answered_by_their_code_alone() {
    let a = structured_error("drive upload returned status 403");
    let b = structured_error("drive upload request failed: secret");
    assert_eq!(a, b);
    assert_eq!(
        a,
        r#"{"code":"loom_drive_upload_failed","kind":"operation_failed"}"#
    );
    let r = respond(Err("screenshot request failed: x".to_string()));
    assert!(r.output.is_none());
    assert_eq!(
        r.error.unwrap(),
        r#"{"code":"loom_screenshot_failed","kind":"operation_failed"}"#
    );
    let r = respond(Ok("done".to_string()));
    assert_eq!(r.output.unwrap(), "done");
    assert!(r.error.is_none());
}

fn reply(status: u16, body: &[u8]) -> Result<HttpResponse, String> {
    Ok(HttpResponse {
        status,
        body: body.to_vec(),
    })
}

#[test]
fn audio_is_fetched_from_the_drive() {
    let r = audio_request("id1");
    assert_eq!(r.method, "GET");
    assert_eq!(
        r.url,
        "https://www.googleapis.com/drive/v3/files/id1?alt=media"
    );
    assert_eq!(r.headers, "{}");
    assert!(r.body.is_none());
    assert_eq!(r.timeout_ms, Some(60_000));
    assert_eq!(fetch_audio("id1", reply(200, b"mp3")).unwrap(), b"mp3");
    assert_eq!(
        fetch_audio("id1", reply(404, b"x")).unwrap_err(),
        "drive download returned status 404"
    );
    assert_eq!(
        fetch_audio("id1", reply(300, b"x")).unwrap_err(),
        "drive download returned status 300"
    );
    assert_eq!(
        fetch_audio("id1", reply(299, b"")).unwrap_err(),
        "audio file id1 is empty"
    );
    let e = fetch_audio("id1", Err("refused".to_string())).unwrap_err();
    assert_eq!(e, "drive download request failed: refused");
    assert_eq!(error_code(&e), "loom_drive_download_failed");
}

#[test]
fn websites_are_captured_by_the_service() {
    let r = capture_request("https://x.com/?a=\"b\"", 1920, 1080);
    assert_eq!(r.method, "POST");
    assert_eq!(r.url, "http://loom-capture.internal:8939/screenshot");
    assert_eq!(r.headers, r#"{"content-type":"application/json"}"#);
    assert_eq!(r.timeout_ms, Some(60_000));
    let body: serde_json::Value = serde_json::from_slice(&r.body.unwrap()).unwrap();
    assert_eq!(body["url"], "https://x.com/?a=\"b\"");
    assert_eq!(body["width"], 1920);
    assert_eq!(body["height"], 1080);
    // The bundled ffmpeg has no PNG decoder.
    assert_eq!(body["format"], "jpeg");
    assert_eq!(body.as_object().unwrap().len(), 4);
    assert_eq!(capture_website(reply(201, b"jpg")).unwrap(), b"jpg");
    assert_eq!(
        capture_website(reply(502, b"")).unwrap_err(),
        "screenshot service returned status 502"
    );
    assert_eq!(
        capture_website(reply(200, b"")).unwrap_err(),
        "screenshot service returned an empty image"
    );
    assert_eq!(
        capture_website(Err("no".to_string())).unwrap_err(),
        "screenshot request failed: no"
    );
}

#[test]
fn uploads_carry_the_file_between_boundaries() {
    let r = upload_request("folder", "name.webm", &[0, 255, 13, 10], "video/webm");
    assert_eq!(r.method, "POST");
    assert_eq!(
        r.url,
        "https://www.googleapis.com/upload/drive/v3/files?uploadType=multipart&fields=id"
    );
    assert_eq!(
        r.headers,
        r#"{"content-type":"multipart/related; boundary=loomrenderQ8x2Zt7pboundary"}"#
    );
    assert_eq!(r.timeout_ms, Some(120_000));
    let mut expected = Vec::new();
    expected.extend_from_slice(
        b"--loomrenderQ8x2Zt7pboundary\r\nContent-Type: application/json; charset=UTF-8\r\n\r\n",
    );
    expected.extend_from_slice(br#"{"name":"name.webm","parents":["folder"]}"#);
    expected.extend_from_slice(b"\r\n--loomrenderQ8x2Zt7pboundary\r\nContent-Type: video/webm\r\n\r\n");
    expected.extend_from_slice(&[0, 255, 13, 10]);
    expected.extend_from_slice(b"\r\n--loomrenderQ8x2Zt7pboundary--\r\n");
    assert_eq!(r.body.unwrap(), expected);
}

#[test]
fn uploads_are_answered_with_a_file_id() {
    assert_eq!(upload_video(reply(200, br#"{"id":"abc"}"#)).unwrap(), "abc");
    assert_eq!(
        upload_video(reply(403, br#"{"id":"abc"}"#)).unwrap_err(),
        "drive upload returned status 403"
    );
    assert_eq!(
        upload_video(reply(200, br#"{"id":7}"#)).unwrap_err(),
        "drive upload returned no file id"
    );
    assert_eq!(
        upload_video(Err("gone".to_string())).unwrap_err(),
        "drive upload request failed: gone"
    );
    let e = upload_video(reply(200, b"{")).unwrap_err();
    assert!(e.starts_with("drive upload returned unparseable JSON: EOF while parsing"));
    assert_eq!(error_code(&e), "loom_drive_upload_failed");
}

fn composed() -> Composed {
    Composed {
        bytes: vec![1, 2, 3],
        container: "webm",
        mime_type: "video/webm",
        video_codec: "libvpx-vp9",
        audio_codec: "opus",
        duration_sec: Json::parse("10.0").unwrap(),
    }
}

#[test]
fn a_render_goes_from_download_to_report() {
    let job = Job::start(params()).unwrap();
    assert!(job
        .request()
        .unwrap()
        .url
        .ends_with("/files/a?alt=media"));
    assert!(job.composition().is_none());
    let job = job.advance(Event::Replied(reply(200, b"mp3"))).unwrap();
    assert!(job.request().unwrap().url.ends_with("/screenshot"));
    let job = job.advance(Event::Replied(reply(200, b"jpg"))).unwrap();
    {
        let c = job.composition().unwrap();
        assert_eq!(c.screenshot, b"jpg");
        assert_eq!(c.audio_mp3, b"mp3");
        assert_eq!((c.width, c.height, c.fps), (1920, 1080, DEFAULT_FPS));
        assert!(c.duration_sec.is_none());
    }
    assert!(job.request().is_none());
    let job = job.advance(Event::Composed(Ok(composed()))).unwrap();
    assert!(job.request().is_none());
    assert!(job.output().is_none());
    let job = job.advance(Event::Clock(1234)).unwrap();
    let body = job.request().unwrap().body.unwrap();
    let body = String::from_utf8_lossy(&body).into_owned();
    assert!(body.contains(r#"{"name":"loom-1234.webm","parents":["f"]}"#));
    let job = job
        .advance(Event::Replied(reply(200, br#"{"id":"xyz"}"#)))
        .unwrap();
    let report: serde_json::Value = serde_json::from_str(&job.output().unwrap()).unwrap();
    assert_eq!(report["success"], true);
    assert_eq!(report["video_drive_file_id"], "xyz");
    assert_eq!(report["container"], "webm");
    assert_eq!(report["codec"], "libvpx-vp9");
    assert_eq!(report["audio_codec"], "opus");
    assert_eq!(report["duration_sec"], 10.0);
    assert_eq!(report["width"], 1920);
    assert_eq!(report["height"], 1080);
    assert_eq!(report["bytes"], 3);
    assert_eq!(report["name"], "loom-1234.webm");
    assert_eq!(report.as_object().unwrap().len(), 10);
}

#[test]
fn a_given_name_is_kept() {
    let mut p = params();
    p.output_name = Some("mine.webm".to_string());
    let job = Job::start(p).unwrap();
    let job = job.advance(Event::Replied(reply(200, b"mp3"))).unwrap();
    let job = job.advance(Event::Replied(reply(200, b"jpg"))).unwrap();
    let job = job.advance(Event::Composed(Ok(composed()))).unwrap();
    let body = job.request().unwrap().body.unwrap();
    assert!(String::from_utf8_lossy(&body).contains("\"mine.webm\""));
}

#[test]
fn a_render_ends_with_the_first_failure() {
    let mut p = params();
    p.resolution = "1p".to_string();
    assert!(Job::start(p).is_err());
    let job = Job::start(params()).unwrap();
    assert_eq!(
        job.advance(Event::Replied(reply(500, b""))).err().unwrap(),
        "drive download returned status 500"
    );
    let job = Job::start(params()).unwrap();
    let job = job.advance(Event::Replied(reply(200, b"mp3"))).unwrap();
    assert_eq!(
        job.advance(Event::Replied(reply(500, b""))).err().unwrap(),
        "screenshot service returned status 500"
    );
    let job = Job::start(params()).unwrap();
    let job = job.advance(Event::Replied(reply(200, b"mp3"))).unwrap();
    let job = job.advance(Event::Replied(reply(200, b"jpg"))).unwrap();
    assert_eq!(
        job.advance(Event::Composed(Err("av_write_trailer failed".to_string())))
            .err()
            .unwrap(),
        "av_write_trailer failed"
    );
}

#[test]
fn reports_do_not_depend_on_the_bytes() {
    let report = |bytes: Vec<u8>| {
        let mut c = composed();
        c.bytes = bytes;
        let mut p = params();
        p.output_name = Some("n".to_string());
        let job = Job::start(p).unwrap();
        let job = job.advance(Event::Replied(reply(200, b"mp3"))).unwrap();
        let job = job.advance(Event::Replied(reply(200, b"jpg"))).unwrap();
        let job = job.advance(Event::Composed(Ok(c))).unwrap();
        let job = job
            .advance(Event::Replied(reply(200, br#"{"id":"i"}"#)))
            .unwrap();
        job.output().unwrap()
    };
    assert_eq!(report(vec![1, 2]), report(vec![9, 9]));
    assert_ne!(report(vec![1, 2]), report(vec![1]));
}

#[test]
fn opus_takes_its_own_rates() {
    for rate in [8000, 12000, 16000, 24000, 48000] {
        assert!(opus_ok(rate));
    }
    for rate in [0, 44100, 22050, 47999, -48000] {
        assert!(!opus_ok(rate));
    }
}

#[test]
fn audio_is_planned_without_a_resampler() {
    assert_eq!(plan_audio(48000, true, true).ok().unwrap().codec_name, "opus");
    assert_eq!(plan_audio(44100, true, true).ok().unwrap().codec_name, "vorbis");
    assert_eq!(plan_audio(48000, false, true).ok().unwrap().codec_name, "vorbis");
    assert_eq!(
        plan_audio(44100, true, false).err().unwrap(),
        "source is 44100 Hz, which Opus cannot encode, and no Vorbis encoder is available to take its place (no resampler in this build)"
    );
    assert_eq!(
        plan_audio(48000, false, false).err().unwrap(),
        "no WebM-compatible audio encoder (opus/vorbis) in this build"
    );
}

fn decoded(planes: Vec<Vec<u32>>) -> DecodedAudio {
    let channels = planes.len() as i32;
    DecodedAudio {
        planes,
        sample_rate: 48000,
        channels,
    }
}

#[test]
fn audio_encoders_are_set_up_for_the_source() {
    let d = decoded(vec![vec![1], vec![2]]);
    let s = audio_settings(&AudioPlan { codec_name: "opus" }, &d, true);
    assert_eq!(s.codec_name, "opus");
    assert_eq!(s.sample_fmt, 8);
    assert_eq!((s.sample_rate, s.time_base_den, s.channels), (48000, 48000, 2));
    assert_eq!(s.bit_rate, 96_000);
    assert!(s.global_header);
    assert!(s.experimental);
    assert!(audio_settings(&AudioPlan { codec_name: "vorbis" }, &d, false).experimental);
    assert!(!audio_settings(&AudioPlan { codec_name: "aac" }, &d, false).experimental);
}

#[test]
fn frames_are_the_plane_with_silence_behind_it() {
    let plane: Vec<u32> = (1..=10).collect();
    let d = decoded(vec![plane.clone(), plane.iter().map(|x| x * 100).collect()]);
    assert_eq!(d.total_samples(), 10);
    let mut all = Vec::new();
    let mut offset = 0;
    while let Some(frame) = make_frame(&d, 4, offset) {
        assert_eq!(frame.len(), 2);
        assert_eq!(frame[0].len(), 4);
        all.extend_from_slice(&frame[0]);
        offset += 4;
    }
    assert_eq!(all, vec![1, 2, 3, 4, 5, 6, 7, 8, 9, 10, 0, 0]);
    assert_eq!(make_frame(&d, 4, 8).unwrap()[1], vec![900, 1000, 0, 0]);
    assert!(make_frame(&d, 4, 10).is_none());
    assert!(make_frame(&decoded(vec![]), 4, 0).is_none());
    assert_eq!(decoded(vec![]).total_samples(), 0);
}

#[test]
fn a_leading_tag_is_skipped() {
    assert_eq!(audio_start(b""), 0);
    assert_eq!(audio_start(b"\xff\xfb0123456789"), 0);
    let mut tagged = b"ID3\x04\x00\x00\x00\x00\x01\x02".to_vec();
    tagged.extend_from_slice(&[0; 130]);
    tagged.extend_from_slice(b"\xff\xfb");
    assert_eq!(audio_start(&tagged), 140);
    tagged[5] = 0x10;
    assert_eq!(audio_start(&tagged), 142);
    assert_eq!(audio_start(b"ID3\x04\x00\x00\x7f\x7f\x7f\x7f"), 10);
    assert_eq!(audio_start(b"ID3\x04"), 0);
}

fn mp3_until_receive() -> Mp3Decoding {
    let mut state = Mp3Decoding::start();
    while state.step != Mp3Step::ReceiveFrame {
        state = state.advance(0).ok().unwrap();
    }
    state
}

fn mp3_frame(planes: Vec<Vec<u32>>) -> DecodedFrame {
    DecodedFrame {
        format: 8,
        sample_rate: 44100,
        planes,
    }
}

#[test]
fn mp3_frames_are_gathered_channel_by_channel() {
    let state = mp3_until_receive().advance(0).ok().unwrap();
    assert_eq!(state.step, Mp3Step::TakeFrame);
    // A frame that was received waits until it is taken.
    let state = state.advance(0).ok().unwrap();
    assert_eq!(state.step, Mp3Step::TakeFrame);
    let state = state
        .take_frame(&mp3_frame(vec![vec![1, 2], vec![3, 4]]))
        .ok()
        .unwrap();
    assert_eq!(state.step, Mp3Step::ReceiveFrame);
    let state = state
        .take_frame(&mp3_frame(vec![vec![5], vec![6]]))
        .ok()
        .unwrap();
    let state = state.advance(-6).ok().unwrap();
    assert_eq!(state.step, Mp3Step::Done);
    let d = state.finish().ok().unwrap();
    assert_eq!(d.planes, vec![vec![1, 2, 5], vec![3, 4, 6]]);
    assert_eq!((d.sample_rate, d.channels), (44100, 2));
}

#[test]
fn channels_are_those_of_the_first_frame() {
    let state = mp3_until_receive();
    let state = state.take_frame(&mp3_frame(vec![vec![1], vec![2]])).ok().unwrap();
    let state = state
        .take_frame(&mp3_frame(vec![vec![4], vec![5], vec![6]]))
        .ok()
        .unwrap();
    assert_eq!(state.planes, vec![vec![1, 4], vec![2, 5]]);
    assert_eq!(state.channels, 2);
}

#[test]
fn frames_that_lack_a_channel_are_refused() {
    let lacking = "mp3 decoder produced a frame that lacks samples for some channel";
    let state = mp3_until_receive();
    let state = state.take_frame(&mp3_frame(vec![vec![1], vec![2]])).ok().unwrap();
    assert_eq!(
        state.take_frame(&mp3_frame(vec![vec![3]])).err().unwrap(),
        lacking
    );
    assert_eq!(
        mp3_until_receive()
            .take_frame(&mp3_frame(vec![vec![1], vec![]]))
            .err()
            .unwrap(),
        lacking
    );
}

#[test]
fn mp3_decoding_fails_in_the_words_of_its_step() {
    let words = [
        "mp3 decoder not present in this build",
        "avcodec_alloc_context3 (mp3) returned null",
        "could not open mp3 decoder",
        "av_packet_alloc (mp3) returned null",
        "av_frame_alloc (mp3) returned null",
        "mp3 decode: send_packet failed",
    ];
    let mut state = Mp3Decoding::start();
    for w in words {
        let again = Mp3Decoding {
            step: state.step,
            planes: Vec::new(),
            sample_rate: 0,
            channels: 0,
        };
        assert_eq!(again.advance(-1).err().unwrap(), w);
        state = state.advance(0).ok().unwrap();
    }
    assert_eq!(state.step, Mp3Step::Flush);
    // The reply to the flush does not count.
    let state = state.advance(-22).ok().unwrap();
    assert_eq!(state.step, Mp3Step::ReceiveFrame);
    assert_eq!(
        state.advance(-11).err().unwrap(),
        "mp3 decode: receive_frame failed (-11)"
    );
    assert_eq!(
        mp3_until_receive().advance(-541_478_725).ok().unwrap().step,
        Mp3Step::Done
    );
    let mut frame = mp3_frame(vec![vec![1]]);
    frame.format = 3;
    assert_eq!(
        mp3_until_receive().take_frame(&frame).err().unwrap(),
        "mp3 decoder produced sample format 3 (expected FLTP 8); no resampler is available to convert it"
    );
    assert_eq!(
        mp3_until_receive().finish().err().unwrap(),
        "mp3 produced no audio samples"
    );
}

#[test]
fn decoding_stops_at_the_ceiling() {
    let full = mp3_frame(vec![vec![0; MAX_SAMPLES_PER_CH]]);
    let state = mp3_until_receive().take_frame(&full).ok().unwrap();
    assert_eq!(
        state.take_frame(&mp3_frame(vec![vec![1]])).err().unwrap(),
        "audio track exceeds the 15-minute decode ceiling"
    );
    let over = mp3_frame(vec![vec![0; MAX_SAMPLES_PER_CH + 1]]);
    assert!(mp3_until_receive().take_frame(&over).is_err());
}

#[test]
fn screenshots_are_tried_as_png_and_then_as_jpeg() {
    let mut state = ImageDecoding::start();
    assert_eq!(state.codec, ImageCodec::Png);
    state = state.advance(-1).unwrap();
    assert_eq!(state.codec, ImageCodec::Mjpeg);
    for _ in 0..7 {
        state = state.advance(0).unwrap();
    }
    assert_eq!(state.step, ImageStep::Decoded);

    let at = |codec, step| ImageDecoding { codec, step };
    for step in [ImageStep::FindDecoder, ImageStep::Open, ImageStep::SendPacket] {
        assert_eq!(
            at(ImageCodec::Mjpeg, step).advance(-1).unwrap_err(),
            "could not decode screenshot as PNG or JPEG"
        );
        assert_eq!(
            at(ImageCodec::Png, step).advance(-1).unwrap(),
            at(ImageCodec::Mjpeg, ImageStep::FindDecoder)
        );
    }
    // Anything but zero means that no frame came.
    assert_eq!(
        at(ImageCodec::Png, ImageStep::ReceiveFrame).advance(1).unwrap(),
        at(ImageCodec::Mjpeg, ImageStep::FindDecoder)
    );
    assert_eq!(
        at(ImageCodec::Png, ImageStep::AllocContext).advance(-1).unwrap_err(),
        "avcodec_alloc_context3 (image decoder) returned null"
    );
    assert_eq!(
        at(ImageCodec::Png, ImageStep::AllocPacket).advance(-1).unwrap_err(),
        "av_packet_alloc returned null"
    );
    assert_eq!(
        at(ImageCodec::Png, ImageStep::AllocFrame).advance(-1).unwrap_err(),
        "av_frame_alloc returned null"
    );
}

fn compose_input(fps: u32) -> Compose<'static> {
    Compose {
        screenshot: b"",
        audio_mp3: b"",
        width: 1280,
        height: 720,
        fps,
        duration_sec: None,
    }
}

#[test]
fn empty_audio_is_no_audio() {
    let mut input = compose_input(25);
    assert!(!has_audio(&input));
    input.audio_mp3 = b"x";
    assert!(has_audio(&input));
}

#[test]
fn the_audio_settles_the_encoders() {
    let input = compose_input(25);
    let plan = plan_encode(&input, 3, &all_encoders(), None).ok().unwrap();
    assert_eq!(plan.triple.audio, "opus");
    assert!(plan.audio.is_none());
    let mut d = decoded(vec![vec![0; 5]]);
    d.sample_rate = 44100;
    let plan = plan_encode(&input, 3, &all_encoders(), Some(&d)).ok().unwrap();
    assert_eq!(plan.triple.audio, "vorbis");
    assert_eq!(
        plan.audio.unwrap(),
        AudioTrack {
            codec_name: "vorbis",
            samples: 5
        }
    );
    assert_eq!((plan.width, plan.height, plan.fps, plan.n_frames), (1280, 720, 25, 3));
    let a = EncoderAvailability {
        vp9: false,
        ..all_encoders()
    };
    assert_eq!(
        plan_encode(&input, 3, &a, Some(&d)).err().unwrap(),
        "no compatible video/container pair for audio codec vorbis"
    );
    assert!(plan_encode(&input, 3, &no_encoders(), Some(&d)).is_err());
    assert!(plan_encode(&input, 3, &no_encoders(), None).is_err());
    assert_eq!(
        plan_encode(&compose_input(0), 1, &all_encoders(), None).ok().unwrap().fps,
        1
    );
}

fn plan(container: &'static str, audio: Option<AudioTrack>, n_frames: i64) -> EncodePlan {
    EncodePlan {
        width: 1280,
        height: 720,
        fps: 25,
        n_frames,
        triple: Triple {
            video: "v",
            audio: "a",
            container,
            mime_type: "video/x",
        },
        audio,
    }
}

#[test]
fn video_encoders_are_set_up_for_a_still() {
    let s = plan("webm", None, 1).video_settings();
    assert_eq!((s.width, s.height, s.fps, s.gop_size), (1280, 720, 25, 25));
    assert_eq!(s.bit_rate, 460_800);
    assert_eq!(s.thread_count, 1);
    assert!(!s.global_header);
    assert!(plan("mp4", None, 1).video_settings().global_header);
    let mut p = plan("mp4", None, 1);
    p.width = -3;
    p.height = 1;
    assert_eq!(p.video_settings().bit_rate, -1);
}

/// Runs the protocol with an encoder that hands out one packet for each thing
/// sent, and returns the stages.
fn run(plan: &EncodePlan, frame_size: i32) -> Vec<Stage> {
    let mut stages = Vec::new();
    let mut state = plan.start();
    let mut ready = 0;
    while state.stage != Stage::Finished {
        stages.push(state.stage);
        let reply = match state.stage {
            Stage::ReadFrameSize => frame_size,
            Stage::SendPicture { .. } | Stage::SendAudioFrame { .. } => {
                ready = 1;
                0
            }
            Stage::FlushVideo | Stage::FlushAudio => -22,
            Stage::ReceiveVideoPacket { flushed, .. }
            | Stage::ReceiveAudioPacket { flushed, .. } => {
                if ready > 0 {
                    ready -= 1;
                    0
                } else if flushed {
                    -541_478_725
                } else {
                    -6
                }
            }
            _ => 0,
        };
        state = plan.advance(state, reply).unwrap();
    }
    stages
}

#[test]
fn every_picture_is_sent_once_in_order() {
    let stages = run(&plan("webm", None, 5), 0);
    let pts: Vec<i64> = stages
        .iter()
        .filter_map(|s| match s {
            Stage::SendPicture { pts } => Some(*pts),
            _ => None,
        })
        .collect();
    assert_eq!(pts, vec![0, 1, 2, 3, 4]);
    let writes = stages
        .iter()
        .filter(|s| matches!(s, Stage::WriteVideoPacket { .. }))
        .count();
    assert_eq!(writes, 5);
    assert_eq!(*stages.last().unwrap(), Stage::WriteTrailer);
    assert!(!stages.contains(&Stage::SetMuxOptions));
    assert!(!stages.contains(&Stage::FindAudioEncoder));
    assert!(!stages.contains(&Stage::FlushAudio));
}

#[test]
fn every_sample_is_sent_once_in_order() {
    let track = AudioTrack {
        codec_name: "opus",
        samples: 10,
    };
    let stages = run(&plan("mp4", Some(track), 2), 4);
    let offsets: Vec<usize> = stages
        .iter()
        .filter_map(|s| match s {
            Stage::SendAudioFrame { offset } => Some(*offset),
            _ => None,
        })
        .collect();
    assert_eq!(offsets, vec![0, 4, 8]);
    let at = |stage: Stage| stages.iter().position(|s| *s == stage).unwrap();
    assert!(at(Stage::SetMuxOptions) < at(Stage::WriteHeader));
    assert!(at(Stage::WriteHeader) < at(Stage::SendPicture { pts: 0 }));
    assert!(at(Stage::FlushVideo) < at(Stage::AllocAudioPacket));
    assert!(at(Stage::FlushAudio) < at(Stage::WriteTrailer));
    // A frame size of zero stands for frames of any size.
    let stages = run(&plan("mp4", Some(track), 2), 0);
    let sends = stages
        .iter()
        .filter(|s| matches!(s, Stage::SendAudioFrame { .. }))
        .count();
    assert_eq!(sends, 1);
    let empty = AudioTrack {
        codec_name: "opus",
        samples: 0,
    };
    let stages = run(&plan("webm", Some(empty), 1), 4);
    assert!(stages.contains(&Stage::FlushAudio));
    assert!(!stages.iter().any(|s| matches!(s, Stage::SendAudioFrame { .. })));
}

#[test]
fn encoding_fails_in_the_words_of_its_stage() {
    let track = AudioTrack {
        codec_name: "opus",
        samples: 10,
    };
    let p = plan("mp4", Some(track), 2);
    let fail = |stage: Stage, reply: i32| {
        let mut state = p.start();
        state.stage = stage;
        state.frame_size = 4;
        p.advance(state, reply).unwrap_err()
    };
    assert_eq!(fail(Stage::FindVideoEncoder, -1), "video encoder v not found in this build");
    assert_eq!(
        fail(Stage::AllocVideoContext, -1),
        "avcodec_alloc_context3 (video) returned null"
    );
    assert_eq!(fail(Stage::OpenVideoEncoder, -1), "could not open v encoder");
    assert_eq!(fail(Stage::FindAudioEncoder, -1), "audio encoder opus not found");
    assert_eq!(
        fail(Stage::AllocAudioContext, -1),
        "avcodec_alloc_context3 (audio) returned null"
    );
    assert_eq!(fail(Stage::OpenAudioEncoder, -1), "could not open opus encoder");
    assert_eq!(fail(Stage::AllocSink, -1), "avio_alloc_context returned null");
    assert_eq!(fail(Stage::AllocOutput, -1), "could not allocate mp4 output context");
    assert_eq!(fail(Stage::NewVideoStream, -1), "avformat_new_stream returned null");
    assert_eq!(
        fail(Stage::CopyVideoParameters, -1),
        "avcodec_parameters_from_context failed"
    );
    assert_eq!(
        fail(Stage::NewAudioStream, -1),
        "avformat_new_stream (audio) returned null"
    );
    assert_eq!(
        fail(Stage::CopyAudioParameters, -1),
        "avcodec_parameters_from_context (audio) failed"
    );
    assert_eq!(fail(Stage::SetMuxOptions, -1), "could not set fragmented MP4 options");
    assert_eq!(
        fail(Stage::WriteHeader, -22),
        "avformat_write_header failed (ffmpeg error -22)"
    );
    assert_eq!(fail(Stage::CreateScaler, -1), "sws_getContext returned null");
    assert_eq!(fail(Stage::AllocPicture, -1), "av_frame_alloc (yuv) returned null");
    assert_eq!(fail(Stage::AllocPictureBuffer, -1), "av_frame_get_buffer failed");
    assert_eq!(fail(Stage::AllocVideoPacket, -1), "av_packet_alloc (mux) returned null");
    assert_eq!(
        fail(Stage::SendPicture { pts: 0 }, -5),
        "avcodec_send_frame failed (ffmpeg error -5)"
    );
    assert_eq!(
        fail(Stage::ReceiveVideoPacket { sent: 1, flushed: false }, -11),
        "avcodec_receive_packet failed (ffmpeg error -11)"
    );
    assert_eq!(
        fail(Stage::WriteVideoPacket { sent: 1, flushed: false }, -1),
        "av_interleaved_write_frame failed"
    );
    assert_eq!(fail(Stage::AllocAudioPacket, -1), "av_packet_alloc (audio) returned null");
    assert_eq!(
        fail(Stage::AllocAudioFrame { offset: 0 }, -1),
        "av_frame_alloc (audio) returned null"
    );
    assert_eq!(
        fail(Stage::AllocAudioBuffer { offset: 0 }, -1),
        "av_frame_get_buffer (audio) failed"
    );
    assert_eq!(
        fail(Stage::SendAudioFrame { offset: 0 }, -2_147_483_648),
        "audio send_frame failed (ffmpeg error -2147483648)"
    );
    assert_eq!(
        fail(Stage::ReceiveAudioPacket { reached: 4, flushed: false }, -1),
        "audio receive_packet failed (ffmpeg error -1)"
    );
    assert_eq!(
        fail(Stage::WriteAudioPacket { reached: 4, flushed: false }, -1),
        "audio interleaved_write_frame failed"
    );
    assert_eq!(fail(Stage::WriteTrailer, -1), "av_write_trailer failed");
}

#[test]
fn a_finished_encode_has_bytes() {
    let p = plan("webm", None, 1);
    assert_eq!(
        p.finish(Vec::new(), Json::Null).err().unwrap(),
        "encode produced an empty buffer"
    );
    let c = p.finish(vec![1], Json::of_u64(10)).ok().unwrap();
    assert_eq!(c.bytes, vec![1]);
    assert_eq!((c.container, c.mime_type), ("webm", "video/x"));
    assert_eq!((c.video_codec, c.audio_codec), ("v", "none"));
    let track = AudioTrack {
        codec_name: "vorbis",
        samples: 1,
    };
    let c = plan("webm", Some(track), 1).finish(vec![1], Json::Null).ok().unwrap();
    assert_eq!(c.audio_codec, "vorbis");
}

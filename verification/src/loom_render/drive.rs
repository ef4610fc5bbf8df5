//! The services around a render: the audio comes from a drive, the picture
//! from a screenshot service, and the video goes back to the drive.
use vstd::prelude::*;
use vstd::utf8::encode_utf8;

use crate::http::{
    bytes_of, reply_contents, success_status, HttpReply, HttpRequest, RequestContents,
};
use crate::json::{
    compact_text, document_of_bytes, empty_object, u64_number, Json, JsonValue,
};
use crate::text::{decimal, decimal_text, joined, joined3};

verus! {

/// The host of the screenshot service.
pub const SCREENSHOT_HOST: &'static str = "loom-capture.internal";

/// The port of the screenshot service, which speaks plain HTTP.
pub const SCREENSHOT_PORT: u16 = 8939;

/// What separates the parts of an upload.
pub const BOUNDARY: &'static str = "loomrenderQ8x2Zt7pboundary";

/// The request for the bytes of an audio file.
pub open spec fn audio_request_for(file_id: Seq<char>) -> RequestContents {
    RequestContents {
        method: "GET"@,
        url: "https://www.googleapis.com/drive/v3/files/"@ + file_id + "?alt=media"@,
        headers: "{}"@,
        body: None,
        timeout_ms: Some(60_000),
    }
}

/// The audio that a reply brings, or in what words it is refused.
pub open spec fn audio_in(
    file_id: Seq<char>,
    reply: Result<(u16, Seq<u8>), Seq<char>>,
) -> Result<Seq<u8>, Seq<char>> {
    match reply {
        Err(e) => Err("drive download request failed: "@ + e),
        Ok((status, body)) => if !success_status(status) {
            Err("drive download returned status "@ + decimal(status as nat))
        } else if body.len() == 0 {
            Err("audio file "@ + file_id + " is empty"@)
        } else {
            Ok(body)
        },
    }
}

/// Asks the drive for the bytes of an audio file. The credentials are added on
/// the way.
pub fn audio_request(file_id: &str) -> (r: HttpRequest)
    ensures
        r@ == audio_request_for(file_id@),
{
    HttpRequest {
        method: "GET",
        url: joined3("https://www.googleapis.com/drive/v3/files/", file_id, "?alt=media"),
        headers: "{}".to_owned(),
        body: None,
        timeout_ms: Some(60_000),
    }
}

/// Takes the audio out of the reply to [`audio_request`].
pub fn fetch_audio(file_id: &str, reply: HttpReply) -> (r: Result<Vec<u8>, String>)
    ensures
        match r {
            Ok(bytes) => audio_in(file_id@, reply_contents(reply)) == Ok::<Seq<u8>, Seq<char>>(
                bytes@,
            ),
            Err(e) => audio_in(file_id@, reply_contents(reply)) == Err::<Seq<u8>, Seq<char>>(e@),
        },
{
    match reply {
        Err(e) => Err(joined("drive download request failed: ", e.as_str())),
        Ok(response) => {
            if !response.is_success() {
                let number = decimal_text(response.status as u64);
                return Err(joined("drive download returned status ", number.as_str()));
            }
            if response.body.len() == 0 {
                return Err(joined3("audio file ", file_id, " is empty"));
            }
            Ok(response.body)
        },
    }
}

/// What the screenshot service is asked for. The picture must be a JPEG: the
/// bundled ffmpeg has no PNG decoder.
pub open spec fn capture_document(url: Seq<char>, width: u32, height: u32) -> JsonValue {
    empty_object().with("url"@, JsonValue::Text(url)).with(
        "width"@,
        JsonValue::Number(u64_number(width as u64)),
    ).with("height"@, JsonValue::Number(u64_number(height as u64))).with(
        "format"@,
        JsonValue::Text("jpeg"@),
    )
}

/// The request for a capture of a website.
pub open spec fn capture_request_for(url: Seq<char>, width: u32, height: u32) -> RequestContents {
    RequestContents {
        method: "POST"@,
        url: "http://"@ + SCREENSHOT_HOST@ + ":"@ + decimal(SCREENSHOT_PORT as nat)
            + "/screenshot"@,
        headers: "{\"content-type\":\"application/json\"}"@,
        body: Some(encode_utf8(compact_text(capture_document(url, width, height)))),
        timeout_ms: Some(60_000),
    }
}

/// The picture that a reply brings, or in what words it is refused.
pub open spec fn picture_in(reply: Result<(u16, Seq<u8>), Seq<char>>) -> Result<
    Seq<u8>,
    Seq<char>,
> {
    match reply {
        Err(e) => Err("screenshot request failed: "@ + e),
        Ok((status, body)) => if !success_status(status) {
            Err("screenshot service returned status "@ + decimal(status as nat))
        } else if body.len() == 0 {
            Err("screenshot service returned an empty image"@)
        } else {
            Ok(body)
        },
    }
}

/// What the screenshot service is asked for, as a document.
pub fn capture_order(url: &str, width: u32, height: u32) -> (r: Json)
    ensures
        r@ == capture_document(url@, width, height),
{
    Json::object().with("url", Json::of_text(url)).with("width", Json::of_u64(width as u64)).with(
        "height",
        Json::of_u64(height as u64),
    ).with("format", Json::of_text("jpeg"))
}

/// Asks the screenshot service for a capture of a website.
pub fn capture_request(url: &str, width: u32, height: u32) -> (r: HttpRequest)
    ensures
        r@ == capture_request_for(url@, width, height),
{
    let port = decimal_text(SCREENSHOT_PORT as u64);
    let host = joined3("http://", SCREENSHOT_HOST, ":");
    let body = capture_order(url, width, height).to_text();
    HttpRequest {
        method: "POST",
        url: joined3(host.as_str(), port.as_str(), "/screenshot"),
        headers: "{\"content-type\":\"application/json\"}".to_owned(),
        body: Some(bytes_of(body.as_str())),
        timeout_ms: Some(60_000),
    }
}

/// Takes the picture out of the reply to [`capture_request`].
pub fn capture_website(reply: HttpReply) -> (r: Result<Vec<u8>, String>)
    ensures
        match r {
            Ok(bytes) => picture_in(reply_contents(reply)) == Ok::<Seq<u8>, Seq<char>>(bytes@),
            Err(e) => picture_in(reply_contents(reply)) == Err::<Seq<u8>, Seq<char>>(e@),
        },
{
    match reply {
        Err(e) => Err(joined("screenshot request failed: ", e.as_str())),
        Ok(response) => {
            if !response.is_success() {
                let number = decimal_text(response.status as u64);
                return Err(joined("screenshot service returned status ", number.as_str()));
            }
            if response.body.len() == 0 {
                return Err("screenshot service returned an empty image".to_owned());
            }
            Ok(response.body)
        },
    }
}

/// What the drive is told of an uploaded file.
pub open spec fn metadata_document(folder_id: Seq<char>, name: Seq<char>) -> JsonValue {
    empty_object().with("name"@, JsonValue::Text(name)).with(
        "parents"@,
        JsonValue::Array(seq![JsonValue::Text(folder_id)]),
    )
}

/// The text of an upload before the file: the metadata as the first part, and
/// the head of the second.
pub open spec fn upload_head(metadata: Seq<char>, mime: Seq<char>) -> Seq<u8> {
    encode_utf8(
        "--"@ + BOUNDARY@ + "\r\nContent-Type: application/json; charset=UTF-8\r\n\r\n"@ + metadata
            + "\r\n"@,
    ) + encode_utf8("--"@ + BOUNDARY@ + "\r\nContent-Type: "@ + mime + "\r\n\r\n"@)
}

/// The text of an upload behind the file.
pub open spec fn upload_tail() -> Seq<u8> {
    encode_utf8("\r\n--"@ + BOUNDARY@ + "--\r\n"@)
}

/// The request that uploads a file.
pub open spec fn upload_request_for(
    folder_id: Seq<char>,
    name: Seq<char>,
    bytes: Seq<u8>,
    mime: Seq<char>,
) -> RequestContents {
    RequestContents {
        method: "POST"@,
        url: "https://www.googleapis.com/upload/drive/v3/files?uploadType=multipart&fields=id"@,
        headers: "{\"content-type\":\"multipart/related; boundary="@ + BOUNDARY@ + "\"}"@,
        body: Some(
            upload_head(compact_text(metadata_document(folder_id, name)), mime) + bytes
                + upload_tail(),
        ),
        timeout_ms: Some(120_000),
    }
}

/// The file id that a reply document names, or in what words it is refused.
pub open spec fn id_in(reply: JsonValue) -> Result<Seq<char>, Seq<char>> {
    match reply.text_member("id"@) {
        Some(id) => Ok(id),
        None => Err("drive upload returned no file id"@),
    }
}

/// The file id that a reply brings, or in what words it is refused.
pub open spec fn uploaded_id_in(reply: Result<(u16, Seq<u8>), Seq<char>>) -> Result<
    Seq<char>,
    Seq<char>,
> {
    match reply {
        Err(e) => Err("drive upload request failed: "@ + e),
        Ok((status, body)) => if !success_status(status) {
            Err("drive upload returned status "@ + decimal(status as nat))
        } else {
            match document_of_bytes(body) {
                Err(e) => Err("drive upload returned unparseable JSON: "@ + e),
                Ok(document) => id_in(document),
            }
        },
    }
}

/// What the drive is told of an uploaded file, as a document.
pub fn upload_metadata(folder_id: &str, name: &str) -> (r: Json)
    ensures
        r@ == metadata_document(folder_id@, name@),
{
    let mut folders: Vec<Json> = Vec::new();
    folders.push(Json::of_text(folder_id));
    let parents = Json::array(folders);
    assert(parents@->Array_0 =~= seq![JsonValue::Text(folder_id@)]);
    Json::object().with("name", Json::of_text(name)).with("parents", parents)
}

/// Uploads a file in two parts: the metadata, then the file as it is.
pub fn upload_request(folder_id: &str, name: &str, bytes: &[u8], mime: &str) -> (r: HttpRequest)
    ensures
        r@ == upload_request_for(folder_id@, name@, bytes@, mime@),
{
    let metadata = upload_metadata(folder_id, name).to_text();
    let first = joined3(
        "--",
        BOUNDARY,
        "\r\nContent-Type: application/json; charset=UTF-8\r\n\r\n",
    );
    let first = joined3(first.as_str(), metadata.as_str(), "\r\n");
    let second = joined3("--", BOUNDARY, "\r\nContent-Type: ");
    let second = joined3(second.as_str(), mime, "\r\n\r\n");
    let tail = joined3("\r\n--", BOUNDARY, "--\r\n");

    let mut body: Vec<u8> = bytes_of(first.as_str());
    let second = bytes_of(second.as_str());
    let tail = bytes_of(tail.as_str());
    body.extend_from_slice(second.as_slice());
    assert(body@ =~= upload_head(metadata@, mime@));
    body.extend_from_slice(bytes);
    assert(body@ =~= upload_head(metadata@, mime@) + bytes@);
    body.extend_from_slice(tail.as_slice());
    assert(body@ =~= upload_head(metadata@, mime@) + bytes@ + upload_tail());
    HttpRequest {
        method: "POST",
        url: "https://www.googleapis.com/upload/drive/v3/files?uploadType=multipart&fields=id".to_owned(),
        headers: joined3("{\"content-type\":\"multipart/related; boundary=", BOUNDARY, "\"}"),
        body: Some(body),
        timeout_ms: Some(120_000),
    }
}

/// The file id that a reply document names.
pub fn file_id_of(reply: &Json) -> (r: Result<String, String>)
    ensures
        match r {
            Ok(id) => id_in(reply@) == Ok::<Seq<char>, Seq<char>>(id@),
            Err(e) => id_in(reply@) == Err::<Seq<char>, Seq<char>>(e@),
        },
{
    match reply.text_at("id") {
        Some(id) => Ok(id.to_owned()),
        None => Err("drive upload returned no file id".to_owned()),
    }
}

/// Takes the file id out of the reply to [`upload_request`].
pub fn upload_video(reply: HttpReply) -> (r: Result<String, String>)
    ensures
        match r {
            Ok(id) => uploaded_id_in(reply_contents(reply)) == Ok::<Seq<char>, Seq<char>>(id@),
            Err(e) => uploaded_id_in(reply_contents(reply)) == Err::<Seq<char>, Seq<char>>(e@),
        },
{
    match reply {
        Err(e) => Err(joined("drive upload request failed: ", e.as_str())),
        Ok(response) => {
            if !response.is_success() {
                let number = decimal_text(response.status as u64);
                return Err(joined("drive upload returned status ", number.as_str()));
            }
            match Json::parse_bytes(response.body.as_slice()) {
                Err(e) => Err(joined("drive upload returned unparseable JSON: ", e.as_str())),
                Ok(document) => file_id_of(&document),
            }
        },
    }
}

/// An upload carries the file byte for byte, between the head, which does not
/// depend on the file, and the closing boundary.
pub proof fn law_upload_carries_the_file(
    folder_id: Seq<char>,
    name: Seq<char>,
    bytes: Seq<u8>,
    mime: Seq<char>,
)
    ensures
        ({
            let head = upload_head(compact_text(metadata_document(folder_id, name)), mime);
            let body = upload_request_for(folder_id, name, bytes, mime).body->Some_0;
            &&& body.take(head.len() as int) == head
            &&& body.subrange(head.len() as int, (head.len() + bytes.len()) as int) == bytes
            &&& body.skip((head.len() + bytes.len()) as int) == upload_tail()
        }),
{
    let head = upload_head(compact_text(metadata_document(folder_id, name)), mime);
    let body = upload_request_for(folder_id, name, bytes, mime).body->Some_0;
    assert(body.take(head.len() as int) =~= head);
    assert(body.subrange(head.len() as int, (head.len() + bytes.len()) as int) =~= bytes);
    assert(body.skip((head.len() + bytes.len()) as int) =~= upload_tail());
}

/// A download succeeds exactly if it is answered with a status from 200 to 299
/// and a body, and the audio is then that body, byte for byte.
pub proof fn law_the_audio_is_the_whole_body(file_id: Seq<char>, status: u16, body: Seq<u8>, i: int)
    ensures
        ({
            let audio = audio_in(file_id, Ok((status, body)));
            &&& audio is Ok <==> 200 <= status <= 299 && body.len() > 0
            &&& audio matches Ok(bytes) ==> {
                &&& bytes.len() == body.len()
                &&& 0 <= i < body.len() ==> bytes[i] == body[i]
                &&& bytes == body
            }
        }),
{
}

/// A download that is not answered, is answered with another status, or brings
/// nothing, fails in words that tell why, the status or the file.
pub proof fn law_failed_downloads_tell_why(
    file_id: Seq<char>,
    status: u16,
    body: Seq<u8>,
    why: Seq<char>,
)
    ensures
        audio_in(file_id, Err(why)) == Err::<Seq<u8>, Seq<char>>(
            "drive download request failed: "@ + why,
        ),
        !(200 <= status <= 299) ==> audio_in(file_id, Ok((status, body))) == Err::<
            Seq<u8>,
            Seq<char>,
        >("drive download returned status "@ + decimal(status as nat)),
        200 <= status <= 299 && body.len() == 0 ==> audio_in(file_id, Ok((status, body))) == Err::<
            Seq<u8>,
            Seq<char>,
        >("audio file "@ + file_id + " is empty"@),
{
}

/// The request for an audio file is a `GET` of the file's own address, with
/// nothing sent along: different files have different addresses.
pub proof fn law_each_file_has_its_address(file_id: Seq<char>, other: Seq<char>)
    ensures
        audio_request_for(file_id).method == "GET"@,
        audio_request_for(file_id).body is None,
        audio_request_for(file_id).headers == "{}"@,
        audio_request_for(file_id).timeout_ms == Some(60_000u32),
        audio_request_for(file_id).url.len() == 42 + file_id.len() + 10,
        audio_request_for(file_id).url.subrange(42, 42 + file_id.len() as int) == file_id,
        audio_request_for(file_id).url.take(42) == "https://www.googleapis.com/drive/v3/files/"@,
        audio_request_for(file_id).url.skip(42 + file_id.len() as int) == "?alt=media"@,
        audio_request_for(file_id) == audio_request_for(other) ==> file_id == other,
{
    reveal_strlit("https://www.googleapis.com/drive/v3/files/");
    reveal_strlit("?alt=media");
    let url = audio_request_for(file_id).url;
    let head = "https://www.googleapis.com/drive/v3/files/"@;
    assert(head.len() == 42);
    assert("?alt=media"@.len() == 10);
    assert(url.subrange(42, 42 + file_id.len() as int) =~= file_id);
    assert(url.take(42) =~= head);
    assert(url.skip(42 + file_id.len() as int) =~= "?alt=media"@);
    if audio_request_for(file_id) == audio_request_for(other) {
        assert(audio_request_for(other).url.subrange(42, 42 + other.len() as int) =~= other);
        assert(audio_request_for(other).url.len() == 42 + other.len() + 10);
    }
}

/// A capture succeeds exactly if it is answered with a status from 200 to 299
/// and a body, and the picture is then that body, byte for byte.
pub proof fn law_the_picture_is_the_whole_body(status: u16, body: Seq<u8>, why: Seq<char>, i: int)
    ensures
        ({
            let picture = picture_in(Ok((status, body)));
            &&& picture is Ok <==> 200 <= status <= 299 && body.len() > 0
            &&& picture matches Ok(bytes) ==> {
                &&& bytes.len() == body.len()
                &&& 0 <= i < body.len() ==> bytes[i] == body[i]
                &&& bytes == body
            }
            &&& !(200 <= status <= 299) ==> picture == Err::<Seq<u8>, Seq<char>>(
                "screenshot service returned status "@ + decimal(status as nat),
            )
            &&& 200 <= status <= 299 && body.len() == 0 ==> picture == Err::<Seq<u8>, Seq<char>>(
                "screenshot service returned an empty image"@,
            )
            &&& picture_in(Err(why)) == Err::<Seq<u8>, Seq<char>>(
                "screenshot request failed: "@ + why,
            )
        }),
{
}

/// The screenshot service is asked for the website, in the width and the height
/// that are wanted, each under its name, as a JPEG, and for nothing else.
pub proof fn law_captures_are_asked_for_in_full(
    url: Seq<char>,
    width: u32,
    height: u32,
    other: Seq<char>,
)
    ensures
        ({
            let order = capture_document(url, width, height);
            &&& order.field("url"@) == JsonValue::Text(url)
            &&& order.field("width"@) == JsonValue::Number(u64_number(width as u64))
            &&& order.field("height"@) == JsonValue::Number(u64_number(height as u64))
            &&& order.field("format"@) == JsonValue::Text("jpeg"@)
            &&& order.member(other) is Some ==> other == "url"@ || other == "width"@ || other
                == "height"@ || other == "format"@
        }),
{
    reveal_strlit("url");
    reveal_strlit("width");
    reveal_strlit("height");
    reveal_strlit("format");
    assert("url"@.len() != "width"@.len());
    assert("url"@.len() != "height"@.len());
    assert("url"@.len() != "format"@.len());
    assert("width"@.len() != "height"@.len());
    assert("width"@.len() != "format"@.len());
    assert("height"@[0] != "format"@[0]);
}

/// The order for a capture goes to the screenshot service as the text of its
/// document, said to be JSON.
pub proof fn law_capture_orders_go_to_the_service(url: Seq<char>, width: u32, height: u32)
    ensures
        ({
            let request = capture_request_for(url, width, height);
            &&& request.method == "POST"@
            &&& request.url == "http://"@ + "loom-capture.internal"@ + ":"@ + decimal(8939)
                + "/screenshot"@
            &&& request.headers == "{\"content-type\":\"application/json\"}"@
            &&& request.body == Some(
                encode_utf8(compact_text(capture_document(url, width, height))),
            )
            &&& request.timeout_ms == Some(60_000u32)
        }),
{
}

/// The drive is told the name of an uploaded file and the one folder that it
/// goes to, and nothing else.
pub proof fn law_uploads_are_named_and_placed(
    folder_id: Seq<char>,
    name: Seq<char>,
    other: Seq<char>,
)
    ensures
        ({
            let metadata = metadata_document(folder_id, name);
            &&& metadata.field("name"@) == JsonValue::Text(name)
            &&& metadata.field("parents"@) matches JsonValue::Array(parents)
            &&& parents.len() == 1
            &&& parents[0] == JsonValue::Text(folder_id)
            &&& metadata.member(other) is Some ==> other == "name"@ || other == "parents"@
        }),
{
    reveal_strlit("name");
    reveal_strlit("parents");
    assert("name"@.len() != "parents"@.len());
}

/// An upload is one `POST` of two parts, each behind the boundary that the
/// header announces and under its own type: the metadata as JSON, and the file
/// as what it is. Behind them stands the closing boundary.
pub proof fn law_uploads_have_two_parts(
    folder_id: Seq<char>,
    name: Seq<char>,
    bytes: Seq<u8>,
    mime: Seq<char>,
)
    ensures
        ({
            let request = upload_request_for(folder_id, name, bytes, mime);
            let boundary = "loomrenderQ8x2Zt7pboundary"@;
            let metadata = compact_text(metadata_document(folder_id, name));
            let first = "--"@ + boundary
                + "\r\nContent-Type: application/json; charset=UTF-8\r\n\r\n"@ + metadata + "\r\n"@;
            let second = "--"@ + boundary + "\r\nContent-Type: "@ + mime + "\r\n\r\n"@;
            let close = "\r\n--"@ + boundary + "--\r\n"@;
            &&& request.method == "POST"@
            &&& request.url
                == "https://www.googleapis.com/upload/drive/v3/files?uploadType=multipart&fields=id"@
            &&& request.headers == "{\"content-type\":\"multipart/related; boundary="@ + boundary
                + "\"}"@
            &&& request.body == Some(
                encode_utf8(first) + encode_utf8(second) + bytes + encode_utf8(close),
            )
            &&& request.timeout_ms == Some(120_000u32)
        }),
{
}

/// An upload succeeds exactly if it is answered with a status from 200 to 299
/// and an object whose member `id` is a text, and the file id is that text.
pub proof fn law_the_file_id_is_the_replys(
    status: u16,
    body: Seq<u8>,
    why: Seq<char>,
    id: Seq<char>,
)
    ensures
        uploaded_id_in(Ok((status, body))) == Ok::<Seq<char>, Seq<char>>(id) <==> {
            &&& 200 <= status <= 299
            &&& document_of_bytes(body) matches Ok(document)
            &&& document matches JsonValue::Object(members)
            &&& members.contains_key("id"@)
            &&& members["id"@] == JsonValue::Text(id)
        },
        uploaded_id_in(Err(why)) == Err::<Seq<char>, Seq<char>>(
            "drive upload request failed: "@ + why,
        ),
        !(200 <= status <= 299) ==> uploaded_id_in(Ok((status, body))) == Err::<
            Seq<char>,
            Seq<char>,
        >("drive upload returned status "@ + decimal(status as nat)),
        200 <= status <= 299 ==> (document_of_bytes(body) matches Err(e) ==> uploaded_id_in(
            Ok((status, body)),
        ) == Err::<Seq<char>, Seq<char>>("drive upload returned unparseable JSON: "@ + e)),
{
}

}

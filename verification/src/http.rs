//! Requests to, and replies from, services behind HTTP.
use vstd::prelude::*;
use vstd::string::StrSliceExecFns;
use vstd::utf8::{decode_utf8, encode_utf8, valid_utf8};

verus! {

/// A request that is to be made.
pub struct HttpRequest {
    pub method: &'static str,
    pub url: String,
    /// The headers, as a JSON object.
    pub headers: String,
    pub body: Option<Vec<u8>>,
    pub timeout_ms: Option<u32>,
}

/// What a service replied.
pub struct HttpResponse {
    pub status: u16,
    pub body: Vec<u8>,
}

/// What came of a request: the reply, or why there was none.
pub type HttpReply = Result<HttpResponse, String>;

/// What a request says.
#[verifier::ext_equal]
pub struct RequestContents {
    pub method: Seq<char>,
    pub url: Seq<char>,
    pub headers: Seq<char>,
    pub body: Option<Seq<u8>>,
    pub timeout_ms: Option<u32>,
}

impl View for HttpRequest {
    type V = RequestContents;

    open spec fn view(&self) -> RequestContents {
        RequestContents {
            method: self.method@,
            url: self.url@,
            headers: self.headers@,
            body: match self.body {
                Some(b) => Some(b@),
                None => None,
            },
            timeout_ms: self.timeout_ms,
        }
    }
}

/// What came of a request, told apart from how it is held.
pub open spec fn reply_contents(reply: HttpReply) -> Result<(u16, Seq<u8>), Seq<char>> {
    match reply {
        Ok(response) => Ok((response.status, response.body@)),
        Err(e) => Err(e@),
    }
}

/// Whether a status is one of success.
pub open spec fn success_status(status: u16) -> bool {
    200 <= status < 300
}

impl HttpResponse {
    /// Whether the status is one of success.
    pub fn is_success(&self) -> (r: bool)
        ensures
            r == success_status(self.status),
    {
        200 <= self.status && self.status < 300
    }
}

/// How the error of `String::from_utf8` reads for bytes that are no UTF-8.
pub uninterp spec fn utf8_complaint(bytes: Seq<u8>) -> Seq<char>;

/// The text that `String::from_utf8_lossy` makes of bytes.
pub uninterp spec fn lossy_text(bytes: Seq<u8>) -> Seq<char>;

/// Calls `String::from_utf8`: the text that the bytes encode, exactly if they
/// are UTF-8. An error is handed on as its message.
#[verifier::external_body]
pub(crate) fn text_of_bytes(bytes: Vec<u8>) -> (r: Result<String, String>)
    ensures
        match r {
            Ok(s) => valid_utf8(bytes@) && s@ == decode_utf8(bytes@),
            Err(e) => !valid_utf8(bytes@) && e@ == utf8_complaint(bytes@),
        },
{
    String::from_utf8(bytes).map_err(|e| e.to_string())
}

/// Calls `String::from_utf8_lossy`: the text that the bytes encode, where they
/// are UTF-8; otherwise what is invalid is replaced.
#[verifier::external_body]
pub(crate) fn lossy_text_of_bytes(bytes: &[u8]) -> (r: String)
    ensures
        r@ == lossy_text(bytes@),
        valid_utf8(bytes@) ==> r@ == decode_utf8(bytes@),
{
    String::from_utf8_lossy(bytes).into_owned()
}

/// The bytes of a text in UTF-8.
pub fn bytes_of(s: &str) -> (r: Vec<u8>)
    ensures
        r@ == encode_utf8(s@),
{
    s.as_bytes_vec()
}

/// The statuses from 200 to 299 are those of success.
pub proof fn law_success_is_from_200_to_299(status: u16)
    ensures
        success_status(status) <==> 200 <= status <= 299,
{
}

/// A reply says its status and its body, byte for byte, or why there is none.
pub proof fn law_replies_say_what_they_hold(response: HttpResponse, why: String)
    ensures
        reply_contents(Ok(response)) == Ok::<(u16, Seq<u8>), Seq<char>>(
            (response.status, response.body@),
        ),
        reply_contents(Err(why)) == Err::<(u16, Seq<u8>), Seq<char>>(why@),
{
}

/// A request says what each of its parts holds.
pub proof fn law_requests_say_what_they_hold(request: HttpRequest)
    ensures
        request@.method == request.method@,
        request@.url == request.url@,
        request@.headers == request.headers@,
        request.body matches Some(b) ==> request@.body == Some(b@),
        request.body is None ==> request@.body is None,
        request@.timeout_ms == request.timeout_ms,
{
}

}

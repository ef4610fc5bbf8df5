//! Mail over the Zoho API: what a request asks for, the call that it leads to,
//! and what is made of the reply.
use vstd::prelude::*;
use vstd::utf8::{
    decode_utf8, encode_utf8, encode_utf8_decode_utf8, encode_utf8_valid_utf8, valid_utf8,
};

use crate::http::{
    bytes_of, lossy_text, lossy_text_of_bytes, reply_contents, success_status, text_of_bytes,
    utf8_complaint, HttpReply, HttpRequest, RequestContents,
};
use crate::json::{
    document_of_text, empty_object, pretty_text, u64_number, written_text, Json, JsonValue,
};
use crate::text::{decimal, decimal_text, joined, joined3, same_text};

verus! {

/// The address of the API.
pub const ZOHO_API_BASE: &'static str = "https://mail.zoho.com.au/api";

/// The parameters of a request, as a JSON schema.
pub const SCHEMA: &'static str = r#"{
            "type": "object",
            "required": ["action"],
            "properties": {
                "action": {
                    "type": "string",
                    "enum": ["get_accounts", "search_messages", "get_message", "list_folders", "list_tags", "create_tag", "tag_message", "untag_message"],
                    "description": "The Zoho Mail operation to perform"
                },
                "account_id": {
                    "type": "string",
                    "description": "Zoho account ID (get from get_accounts). Required for all actions except get_accounts"
                },
                "query": {
                    "type": "string",
                    "description": "Search query string. Used by: search_messages"
                },
                "limit": {
                    "type": "integer",
                    "description": "Max results to return (default: 20). Used by: search_messages",
                    "default": 20
                },
                "message_id": {
                    "type": "string",
                    "description": "Message ID. Required for: get_message, tag_message, untag_message"
                },
                "tag_id": {
                    "type": "string",
                    "description": "Tag/label ID. Required for: tag_message, untag_message"
                },
                "tag_name": {
                    "type": "string",
                    "description": "Name for new tag. Required for: create_tag"
                },
                "tag_color": {
                    "type": "string",
                    "description": "Color hex for new tag (e.g. '#FF0000'). Optional for: create_tag"
                }
            }
        }"#;

/// What the tool does, in words for its callers.
pub const DESCRIPTION: &'static str = "Zoho Mail integration for reading, searching, and tagging emails. First call get_accounts to obtain the account_id, then use it for other actions. search_messages supports keyword queries. Tag operations: list_tags, create_tag, tag_message, untag_message. Requires Zoho OAuth token.";

/// Whether a byte stands for itself in an encoded address.
pub open spec fn unreserved(b: u8) -> bool {
    ||| 0x41 <= b <= 0x5a
    ||| 0x61 <= b <= 0x7a
    ||| 0x30 <= b <= 0x39
    ||| b == 0x2d || b == 0x5f || b == 0x2e || b == 0x7e
}

/// The character of a hexadecimal digit.
pub open spec fn hex_char(d: u8) -> char {
    if d < 10 {
        (0x30 + d) as u8 as char
    } else {
        (0x41 + d - 10) as u8 as char
    }
}

/// A byte in an encoded address: itself, or a percent sign and its two
/// hexadecimal digits.
pub open spec fn encoded_byte(b: u8) -> Seq<char> {
    if unreserved(b) {
        seq![b as char]
    } else {
        seq!['%', hex_char(b / 16), hex_char(b % 16)]
    }
}

/// Bytes in an encoded address.
pub open spec fn encoded(bytes: Seq<u8>) -> Seq<char>
    decreases bytes.len(),
{
    if bytes.len() == 0 {
        Seq::empty()
    } else {
        encoded_byte(bytes[0]) + encoded(bytes.drop_first())
    }
}

/// A text in an encoded address.
pub open spec fn url_encoded(s: Seq<char>) -> Seq<char> {
    encoded(encode_utf8(s))
}

/// One more byte is encoded behind the others.
proof fn lemma_encoded_push(bytes: Seq<u8>, b: u8)
    ensures
        encoded(bytes.push(b)) == encoded(bytes) + encoded_byte(b),
    decreases bytes.len(),
{
    let all = bytes.push(b);
    if bytes.len() == 0 {
        assert(all.drop_first() =~= Seq::empty());
        assert(encoded(all.drop_first()) =~= Seq::empty());
        assert(encoded(all) =~= encoded(bytes) + encoded_byte(b));
    } else {
        assert(all.drop_first() =~= bytes.drop_first().push(b));
        lemma_encoded_push(bytes.drop_first(), b);
        assert(encoded(all) =~= encoded(bytes) + encoded_byte(b));
    }
}

/// The character of a hexadecimal digit.
fn hex_digit(d: u8) -> (r: char)
    requires
        d < 16,
    ensures
        r == hex_char(d),
{
    if d < 10 {
        (0x30 + d) as char
    } else {
        (0x41 + (d - 10)) as char
    }
}

/// A text in an encoded address.
pub fn url_encode(s: &str) -> (r: String)
    ensures
        r@ == url_encoded(s@),
{
    let bytes = s.as_bytes();
    let mut r = "".to_owned();
    proof {
        reveal_strlit("");
        assert(r@ =~= Seq::<char>::empty());
        assert(bytes@.take(0) =~= Seq::<u8>::empty());
    }
    for i in 0..bytes.len()
        invariant
            r@ == encoded(bytes@.take(i as int)),
    {
        let b = bytes[i];
        proof {
            lemma_encoded_push(bytes@.take(i as int), b);
            assert(bytes@.take(i as int + 1) =~= bytes@.take(i as int).push(b));
        }
        let ghost before = r@;
        let plain = (0x41 <= b && b <= 0x5a) || (0x61 <= b && b <= 0x7a) || (0x30 <= b && b
            <= 0x39) || b == 0x2d || b == 0x5f || b == 0x2e || b == 0x7e;
        if plain {
            r.push(b as char);
        } else {
            r.push('%');
            r.push(hex_digit(b / 16));
            r.push(hex_digit(b % 16));
        }
        assert(r@ =~= before + encoded_byte(b));
    }
    assert(bytes@.take(bytes@.len() as int) =~= bytes@);
    r
}

/// Whether a character may stand in a part of an address without a meaning of
/// its own there, or is the percent sign.
pub open spec fn harmless(c: char) -> bool {
    ||| 'A' <= c <= 'Z'
    ||| 'a' <= c <= 'z'
    ||| '0' <= c <= '9'
    ||| c == '-' || c == '_' || c == '.' || c == '~' || c == '%'
}

/// An encoded text holds nothing but letters, digits, `-`, `_`, `.`, `~` and
/// `%`: whatever the text, it cannot end the part of the address that it
/// stands in.
pub proof fn law_encoded_text_is_harmless(bytes: Seq<u8>)
    ensures
        forall|i: int| 0 <= i < encoded(bytes).len() ==> harmless(#[trigger] encoded(bytes)[i]),
    decreases bytes.len(),
{
    if bytes.len() > 0 {
        let rest = encoded(bytes.drop_first());
        let first = encoded_byte(bytes[0]);
        law_encoded_text_is_harmless(bytes.drop_first());
        assert forall|i: int| 0 <= i < encoded(bytes).len() implies harmless(
            #[trigger] encoded(bytes)[i],
        ) by {
            if i < first.len() {
                assert(encoded(bytes)[i] == first[i]);
            } else {
                assert(encoded(bytes)[i] == rest[i - first.len()]);
            }
        }
    }
}

/// Encoding loses nothing: texts that are encoded alike are the same.
pub proof fn law_encoding_is_injective(a: Seq<char>, b: Seq<char>)
    requires
        url_encoded(a) == url_encoded(b),
    ensures
        a == b,
{
    lemma_bytes_injective(encode_utf8(a), encode_utf8(b));
    encode_utf8_decode_utf8(a);
    encode_utf8_decode_utf8(b);
}

proof fn lemma_bytes_injective(a: Seq<u8>, b: Seq<u8>)
    requires
        encoded(a) == encoded(b),
    ensures
        a == b,
    decreases a.len(),
{
    if a.len() == 0 {
        if b.len() > 0 {
            assert(encoded(b).len() > 0);
        }
        assert(a =~= b);
    } else if b.len() == 0 {
        assert(encoded(a).len() > 0);
    } else {
        let first = encoded_byte(a[0]);
        let second = encoded_byte(b[0]);
        assert(encoded(a)[0] == first[0]);
        assert(encoded(b)[0] == second[0]);
        assert(unreserved(a[0]) == unreserved(b[0]));
        assert(first.len() == second.len());
        if !unreserved(a[0]) {
            assert(encoded(a)[1] == first[1]);
            assert(encoded(b)[1] == second[1]);
            assert(encoded(a)[2] == first[2]);
            assert(encoded(b)[2] == second[2]);
        }
        assert(a[0] == b[0]);
        let n = first.len() as int;
        assert(encoded(a.drop_first()) =~= encoded(a).skip(n));
        assert(encoded(b.drop_first()) =~= encoded(b).skip(n));
        lemma_bytes_injective(a.drop_first(), b.drop_first());
        assert(a =~= seq![a[0]] + a.drop_first());
        assert(b =~= seq![b[0]] + b.drop_first());
    }
}

/// What a request asks for.
pub enum Action {
    GetAccounts,
    SearchMessages { account_id: String, query: String, limit: u32 },
    GetMessage { account_id: String, message_id: String },
    ListFolders { account_id: String },
    ListTags { account_id: String },
    CreateTag { account_id: String, name: String, color: Option<String> },
    TagMessage { account_id: String, message_id: String, tag_id: String },
    UntagMessage { account_id: String, message_id: String, tag_id: String },
}

/// What a request asks for, apart from how it is held.
#[verifier::ext_equal]
pub enum Asked {
    GetAccounts,
    SearchMessages { account_id: Seq<char>, query: Seq<char>, limit: u32 },
    GetMessage { account_id: Seq<char>, message_id: Seq<char> },
    ListFolders { account_id: Seq<char> },
    ListTags { account_id: Seq<char> },
    CreateTag { account_id: Seq<char>, name: Seq<char>, color: Option<Seq<char>> },
    TagMessage { account_id: Seq<char>, message_id: Seq<char>, tag_id: Seq<char> },
    UntagMessage { account_id: Seq<char>, message_id: Seq<char>, tag_id: Seq<char> },
}

impl View for Action {
    type V = Asked;

    open spec fn view(&self) -> Asked {
        match *self {
            Action::GetAccounts => Asked::GetAccounts,
            Action::SearchMessages { account_id, query, limit } => Asked::SearchMessages {
                account_id: account_id@,
                query: query@,
                limit,
            },
            Action::GetMessage { account_id, message_id } => Asked::GetMessage {
                account_id: account_id@,
                message_id: message_id@,
            },
            Action::ListFolders { account_id } => Asked::ListFolders { account_id: account_id@ },
            Action::ListTags { account_id } => Asked::ListTags { account_id: account_id@ },
            Action::CreateTag { account_id, name, color } => Asked::CreateTag {
                account_id: account_id@,
                name: name@,
                color: match color {
                    Some(c) => Some(c@),
                    None => None,
                },
            },
            Action::TagMessage { account_id, message_id, tag_id } => Asked::TagMessage {
                account_id: account_id@,
                message_id: message_id@,
                tag_id: tag_id@,
            },
            Action::UntagMessage { account_id, message_id, tag_id } => Asked::UntagMessage {
                account_id: account_id@,
                message_id: message_id@,
                tag_id: tag_id@,
            },
        }
    }
}

/// The text that a request must give under `name`, or how the want of it
/// reads.
pub open spec fn needed(request: JsonValue, name: Seq<char>) -> Result<Seq<char>, Seq<char>> {
    match request.text_member(name) {
        Some(text) => Ok(text),
        None => Err("Missing '"@ + name + "'"@),
    }
}

/// How many messages a search is to bring: what the request says, cut to 32
/// bits, or 20.
pub open spec fn limit_in(request: JsonValue) -> u32 {
    match request.field("limit"@).unsigned() {
        Some(n) => n as u32,
        None => 20,
    }
}

/// What a tagging request asks for.
pub open spec fn tagging_in(request: JsonValue, adds: bool) -> Result<Asked, Seq<char>> {
    match needed(request, "account_id"@) {
        Err(e) => Err(e),
        Ok(account_id) => match needed(request, "message_id"@) {
            Err(e) => Err(e),
            Ok(message_id) => match needed(request, "tag_id"@) {
                Err(e) => Err(e),
                Ok(tag_id) => if adds {
                    Ok(Asked::TagMessage { account_id, message_id, tag_id })
                } else {
                    Ok(Asked::UntagMessage { account_id, message_id, tag_id })
                },
            },
        },
    }
}

/// What a request asks for, given its account.
pub open spec fn account_action(request: JsonValue, action: Seq<char>) -> Result<Asked, Seq<char>> {
    match needed(request, "account_id"@) {
        Err(e) => Err(e),
        Ok(account_id) => if action == "search_messages"@ {
            Ok(
                Asked::SearchMessages {
                    account_id,
                    query: match request.text_member("query"@) {
                        Some(query) => query,
                        None => ""@,
                    },
                    limit: limit_in(request),
                },
            )
        } else if action == "get_message"@ {
            match needed(request, "message_id"@) {
                Err(e) => Err(e),
                Ok(message_id) => Ok(Asked::GetMessage { account_id, message_id }),
            }
        } else if action == "list_folders"@ {
            Ok(Asked::ListFolders { account_id })
        } else if action == "list_tags"@ {
            Ok(Asked::ListTags { account_id })
        } else {
            match needed(request, "tag_name"@) {
                Err(e) => Err(e),
                Ok(name) => Ok(
                    Asked::CreateTag { account_id, name, color: request.text_member("tag_color"@) },
                ),
            }
        },
    }
}

/// What a request asks for, or in what words it is refused.
pub open spec fn asked_in(request: JsonValue) -> Result<Asked, Seq<char>> {
    match request.text_member("action"@) {
        None => Err("Missing 'action' field"@),
        Some(action) => if action == "get_accounts"@ {
            Ok(Asked::GetAccounts)
        } else if action == "search_messages"@ || action == "get_message"@ || action
            == "list_folders"@ || action == "list_tags"@ || action == "create_tag"@ {
            account_action(request, action)
        } else if action == "tag_message"@ {
            tagging_in(request, true)
        } else if action == "untag_message"@ {
            tagging_in(request, false)
        } else {
            Err(
                "Unknown action '"@ + action
                    + "'. Use: get_accounts, search_messages, get_message, list_folders, list_tags, create_tag, tag_message, untag_message"@,
            )
        },
    }
}

/// The text that a request must give under `name`.
fn need(request: &Json, name: &str) -> (r: Result<String, String>)
    ensures
        match r {
            Ok(text) => needed(request@, name@) == Ok::<Seq<char>, Seq<char>>(text@),
            Err(e) => needed(request@, name@) == Err::<Seq<char>, Seq<char>>(e@),
        },
{
    match request.text_at(name) {
        Some(text) => Ok(text.to_owned()),
        None => Err(joined3("Missing '", name, "'")),
    }
}

/// What a tagging request asks for.
fn read_tagging(request: &Json, adds: bool) -> (r: Result<Action, String>)
    ensures
        match r {
            Ok(a) => tagging_in(request@, adds) == Ok::<Asked, Seq<char>>(a@),
            Err(e) => tagging_in(request@, adds) == Err::<Asked, Seq<char>>(e@),
        },
{
    let account_id = need(request, "account_id")?;
    let message_id = need(request, "message_id")?;
    let tag_id = need(request, "tag_id")?;
    if adds {
        Ok(Action::TagMessage { account_id, message_id, tag_id })
    } else {
        Ok(Action::UntagMessage { account_id, message_id, tag_id })
    }
}

/// What a request asks for, given its account.
fn read_account_action(request: &Json, action: &str) -> (r: Result<Action, String>)
    ensures
        match r {
            Ok(a) => account_action(request@, action@) == Ok::<Asked, Seq<char>>(a@),
            Err(e) => account_action(request@, action@) == Err::<Asked, Seq<char>>(e@),
        },
{
    let account_id = need(request, "account_id")?;
    if same_text(action, "search_messages") {
        let query = match request.text_at("query") {
            Some(query) => query.to_owned(),
            None => "".to_owned(),
        };
        let given = match request.get("limit") {
            Some(limit) => limit.as_u64(),
            None => None,
        };
        #[verifier::truncate]
        let limit: u32 = match given {
            Some(n) => n as u32,
            None => 20,
        };
        Ok(Action::SearchMessages { account_id, query, limit })
    } else if same_text(action, "get_message") {
        let message_id = need(request, "message_id")?;
        Ok(Action::GetMessage { account_id, message_id })
    } else if same_text(action, "list_folders") {
        Ok(Action::ListFolders { account_id })
    } else if same_text(action, "list_tags") {
        Ok(Action::ListTags { account_id })
    } else {
        let name = need(request, "tag_name")?;
        let color = match request.text_at("tag_color") {
            Some(color) => Some(color.to_owned()),
            None => None,
        };
        Ok(Action::CreateTag { account_id, name, color })
    }
}

impl Action {
    /// Reads what a request asks for.
    pub fn read(request: &Json) -> (r: Result<Action, String>)
        ensures
            match r {
                Ok(a) => asked_in(request@) == Ok::<Asked, Seq<char>>(a@),
                Err(e) => asked_in(request@) == Err::<Asked, Seq<char>>(e@),
            },
    {
        let action = match request.text_at("action") {
            Some(action) => action,
            None => {
                return Err("Missing 'action' field".to_owned());
            },
        };
        if same_text(action, "get_accounts") {
            Ok(Action::GetAccounts)
        } else if same_text(action, "search_messages") || same_text(action, "get_message")
            || same_text(action, "list_folders") || same_text(action, "list_tags") || same_text(
            action,
            "create_tag",
        ) {
            read_account_action(request, action)
        } else if same_text(action, "tag_message") {
            read_tagging(request, true)
        } else if same_text(action, "untag_message") {
            read_tagging(request, false)
        } else {
            Err(
                joined3(
                    "Unknown action '",
                    action,
                    "'. Use: get_accounts, search_messages, get_message, list_folders, list_tags, create_tag, tag_message, untag_message",
                ),
            )
        }
    }

    /// Reads what the text of a request asks for.
    pub fn parse(params_json: &str) -> (r: Result<Action, String>)
        ensures
            match document_of_text(params_json@) {
                Err(why) => r matches Err(e) && e@ == "Invalid JSON: "@ + why,
                Ok(request) => match r {
                    Ok(a) => asked_in(request) == Ok::<Asked, Seq<char>>(a@),
                    Err(e) => asked_in(request) == Err::<Asked, Seq<char>>(e@),
                },
            },
    {
        match Json::parse(params_json) {
            Ok(request) => Action::read(&request),
            Err(why) => Err(joined("Invalid JSON: ", why.as_str())),
        }
    }
}

/// A call of the API. The credentials are added on the way.
pub open spec fn api_request(
    method: Seq<char>,
    path: Seq<char>,
    body: Option<Seq<char>>,
) -> RequestContents {
    RequestContents {
        method,
        url: ZOHO_API_BASE@ + "/"@ + path,
        headers: match body {
            Some(_) => "{\"Content-Type\": \"application/json\"}"@,
            None => "{}"@,
        },
        body: match body {
            Some(text) => Some(encode_utf8(text)),
            None => None,
        },
        timeout_ms: None,
    }
}

/// A call of the API whose body is a document.
pub open spec fn api_request_with(
    method: Seq<char>,
    path: Seq<char>,
    body: JsonValue,
) -> RequestContents {
    api_request(method, path, Some(written_text(body)))
}

/// The path of an account.
pub open spec fn account_path(account_id: Seq<char>) -> Seq<char> {
    "accounts/"@ + url_encoded(account_id)
}

/// The path of a message.
pub open spec fn message_path(account_id: Seq<char>, message_id: Seq<char>) -> Seq<char> {
    account_path(account_id) + "/messages/"@ + url_encoded(message_id)
}

/// What is told of a new tag.
pub open spec fn tag_document(name: Seq<char>, color: Option<Seq<char>>) -> JsonValue {
    let named = empty_object().with("tagName"@, JsonValue::Text(name));
    match color {
        Some(c) => named.with("color"@, JsonValue::Text(c)),
        None => named,
    }
}

/// What is told of a tag that is put on a message or taken off it.
pub open spec fn tagging_document(mode: Seq<char>, tag_id: Seq<char>) -> JsonValue {
    empty_object().with("mode"@, JsonValue::Text(mode)).with("tagid"@, JsonValue::Text(tag_id))
}

/// The call that carries out what is asked for.
pub open spec fn call_for(asked: Asked) -> RequestContents {
    match asked {
        Asked::GetAccounts => api_request("GET"@, "accounts"@, None),
        Asked::SearchMessages { account_id, query, limit } => api_request(
            "GET"@,
            account_path(account_id) + "/messages/search?searchKey="@ + url_encoded(query)
                + "&limit="@ + decimal(limit as nat),
            None,
        ),
        Asked::GetMessage { account_id, message_id } => api_request(
            "GET"@,
            message_path(account_id, message_id),
            None,
        ),
        Asked::ListFolders { account_id } => api_request(
            "GET"@,
            account_path(account_id) + "/folders"@,
            None,
        ),
        Asked::ListTags { account_id } => api_request(
            "GET"@,
            account_path(account_id) + "/tags"@,
            None,
        ),
        Asked::CreateTag { account_id, name, color } => api_request_with(
            "POST"@,
            account_path(account_id) + "/tags"@,
            tag_document(name, color),
        ),
        Asked::TagMessage { account_id, message_id, tag_id } => api_request_with(
            "PUT"@,
            message_path(account_id, message_id),
            tagging_document("addTag"@, tag_id),
        ),
        Asked::UntagMessage { account_id, message_id, tag_id } => api_request_with(
            "PUT"@,
            message_path(account_id, message_id),
            tagging_document("removeTag"@, tag_id),
        ),
    }
}

/// A call of the API.
pub fn api_call(method: &'static str, path: &str, body: Option<&str>) -> (r: HttpRequest)
    ensures
        r@ == api_request(
            method@,
            path@,
            match body {
                Some(text) => Some(text@),
                None => None,
            },
        ),
{
    let url = joined3(ZOHO_API_BASE, "/", path);
    match body {
        Some(text) => HttpRequest {
            method,
            url,
            headers: "{\"Content-Type\": \"application/json\"}".to_owned(),
            body: Some(bytes_of(text)),
            timeout_ms: None,
        },
        None => HttpRequest {
            method,
            url,
            headers: "{}".to_owned(),
            body: None,
            timeout_ms: None,
        },
    }
}

/// A call of the API whose body is a document. It never fails.
fn api_call_with(method: &'static str, path: &str, body: &Json) -> (r: Result<HttpRequest, String>)
    ensures
        r matches Ok(request) && request@ == api_request_with(method@, path@, body@),
{
    let text = body.to_written_text()?;
    Ok(api_call(method, path, Some(text.as_str())))
}

/// The path of an account.
fn path_of_account(account_id: &str) -> (r: String)
    ensures
        r@ == account_path(account_id@),
{
    let id = url_encode(account_id);
    joined("accounts/", id.as_str())
}

/// The path of a message.
fn path_of_message(account_id: &str, message_id: &str) -> (r: String)
    ensures
        r@ == message_path(account_id@, message_id@),
{
    let account = path_of_account(account_id);
    let id = url_encode(message_id);
    joined3(account.as_str(), "/messages/", id.as_str())
}

/// Asks for the accounts.
pub fn get_accounts() -> (r: HttpRequest)
    ensures
        r@ == call_for(Asked::GetAccounts),
{
    api_call("GET", "accounts", None)
}

/// Searches the messages of an account.
pub fn search_messages(account_id: &str, query: &str, limit: u32) -> (r: HttpRequest)
    ensures
        r@ == call_for(Asked::SearchMessages { account_id: account_id@, query: query@, limit }),
{
    let account = path_of_account(account_id);
    let key = url_encode(query);
    let count = decimal_text(limit as u64);
    let head = joined3(account.as_str(), "/messages/search?searchKey=", key.as_str());
    let path = joined3(head.as_str(), "&limit=", count.as_str());
    api_call("GET", path.as_str(), None)
}

/// Asks for a message.
pub fn get_message(account_id: &str, message_id: &str) -> (r: HttpRequest)
    ensures
        r@ == call_for(Asked::GetMessage { account_id: account_id@, message_id: message_id@ }),
{
    let path = path_of_message(account_id, message_id);
    api_call("GET", path.as_str(), None)
}

/// Asks for the folders of an account.
pub fn list_folders(account_id: &str) -> (r: HttpRequest)
    ensures
        r@ == call_for(Asked::ListFolders { account_id: account_id@ }),
{
    let account = path_of_account(account_id);
    let path = joined(account.as_str(), "/folders");
    api_call("GET", path.as_str(), None)
}

/// Asks for the tags of an account.
pub fn list_tags(account_id: &str) -> (r: HttpRequest)
    ensures
        r@ == call_for(Asked::ListTags { account_id: account_id@ }),
{
    let account = path_of_account(account_id);
    let path = joined(account.as_str(), "/tags");
    api_call("GET", path.as_str(), None)
}

/// Makes a tag. Writing the call never fails.
pub fn create_tag(account_id: &str, name: &str, color: Option<&str>) -> (r: Result<
    HttpRequest,
    String,
>)
    ensures
        ({
            let asked = Asked::CreateTag {
                account_id: account_id@,
                name: name@,
                color: match color {
                    Some(c) => Some(c@),
                    None => None,
                },
            };
            r matches Ok(request) && request@ == call_for(asked)
        }),
{
    let named = Json::object().with("tagName", Json::of_text(name));
    let body = match color {
        Some(c) => named.with("color", Json::of_text(c)),
        None => named,
    };
    let account = path_of_account(account_id);
    let path = joined(account.as_str(), "/tags");
    api_call_with("POST", path.as_str(), &body)
}

/// Puts a tag on a message. Writing the call never fails.
pub fn tag_message(account_id: &str, message_id: &str, tag_id: &str) -> (r: Result<
    HttpRequest,
    String,
>)
    ensures
        ({
            let asked = Asked::TagMessage {
                account_id: account_id@,
                message_id: message_id@,
                tag_id: tag_id@,
            };
            r matches Ok(request) && request@ == call_for(asked)
        }),
{
    let path = path_of_message(account_id, message_id);
    let body = Json::object().with("mode", Json::of_text("addTag")).with(
        "tagid",
        Json::of_text(tag_id),
    );
    api_call_with("PUT", path.as_str(), &body)
}

/// Takes a tag off a message. Writing the call never fails.
pub fn untag_message(account_id: &str, message_id: &str, tag_id: &str) -> (r: Result<
    HttpRequest,
    String,
>)
    ensures
        ({
            let asked = Asked::UntagMessage {
                account_id: account_id@,
                message_id: message_id@,
                tag_id: tag_id@,
            };
            r matches Ok(request) && request@ == call_for(asked)
        }),
{
    let path = path_of_message(account_id, message_id);
    let body = Json::object().with("mode", Json::of_text("removeTag")).with(
        "tagid",
        Json::of_text(tag_id),
    );
    api_call_with("PUT", path.as_str(), &body)
}

/// The text of a reply, or in what words it is refused.
pub open spec fn text_in(reply: Result<(u16, Seq<u8>), Seq<char>>) -> Result<Seq<char>, Seq<char>> {
    match reply {
        Err(e) => Err(e),
        Ok((status, body)) => if !success_status(status) {
            Err(
                "Zoho API returned status "@ + decimal(status as nat) + ": "@ + lossy_text(body),
            )
        } else if body.len() == 0 {
            Ok("{}"@)
        } else if valid_utf8(body) {
            Ok(decode_utf8(body))
        } else {
            Err("Invalid UTF-8 in response: "@ + utf8_complaint(body))
        },
    }
}

/// Takes the text out of a reply.
pub fn api_reply(reply: HttpReply) -> (r: Result<String, String>)
    ensures
        match r {
            Ok(text) => text_in(reply_contents(reply)) == Ok::<Seq<char>, Seq<char>>(text@),
            Err(e) => text_in(reply_contents(reply)) == Err::<Seq<char>, Seq<char>>(e@),
        },
{
    let response = reply?;
    if !response.is_success() {
        let number = decimal_text(response.status as u64);
        let text = lossy_text_of_bytes(response.body.as_slice());
        let head = joined3("Zoho API returned status ", number.as_str(), ": ");
        return Err(joined(head.as_str(), text.as_str()));
    }
    if response.body.len() == 0 {
        return Ok("{}".to_owned());
    }
    match text_of_bytes(response.body) {
        Ok(text) => Ok(text),
        Err(e) => Err(joined("Invalid UTF-8 in response: ", e.as_str())),
    }
}

/// What is told of one message that a search found.
pub open spec fn summary_document(message: JsonValue) -> JsonValue {
    empty_object().with("messageId"@, message.field("messageId"@)).with(
        "subject"@,
        message.field("subject"@),
    ).with("sender"@, message.field("sender"@)).with("from"@, message.field("fromAddress"@)).with(
        "receivedTime"@,
        message.field("receivedTime"@),
    ).with("summary"@, message.field("summary"@)).with("folderId"@, message.field("folderId"@))
}

/// The messages that a search found.
pub open spec fn messages_in(found: JsonValue) -> Seq<JsonValue> {
    match found.field("data"@).items() {
        Some(messages) => messages,
        None => Seq::empty(),
    }
}

/// What is told of each message that a search found.
pub open spec fn summaries_in(found: JsonValue) -> Seq<JsonValue> {
    Seq::new(messages_in(found).len(), |i: int| summary_document(messages_in(found)[i]))
}

/// What is told of a search.
pub open spec fn search_document(found: JsonValue) -> JsonValue {
    empty_object().with(
        "count"@,
        JsonValue::Number(u64_number(messages_in(found).len() as u64)),
    ).with("messages"@, JsonValue::Array(summaries_in(found)))
}

/// What is told of one message that a search found.
fn summary_of(message: &Json) -> (r: Json)
    ensures
        r@ == summary_document(message@),
{
    Json::object().with("messageId", message.field("messageId")).with(
        "subject",
        message.field("subject"),
    ).with("sender", message.field("sender")).with("from", message.field("fromAddress")).with(
        "receivedTime",
        message.field("receivedTime"),
    ).with("summary", message.field("summary")).with("folderId", message.field("folderId"))
}

/// What is told of a search: how many messages it found, and the useful fields
/// of each.
pub fn search_facts(found: &Json) -> (r: Json)
    ensures
        r@ == search_document(found@),
{
    let mut summaries: Vec<Json> = Vec::new();
    let data = found.get("data");
    let messages = match data {
        Some(data) => data.as_array(),
        None => None,
    };
    if let Some(messages) = messages {
        for i in 0..messages.len()
            invariant
                messages_in(found@).len() == messages@.len(),
                forall|j: int|
                    0 <= j < messages@.len() ==> messages_in(found@)[j] == (
                    #[trigger] messages@[j])@,
                summaries@.len() == i,
                forall|j: int|
                    0 <= j < i ==> (#[trigger] summaries@[j])@ == summary_document(
                        messages_in(found@)[j],
                    ),
        {
            summaries.push(summary_of(&messages[i]));
        }
    }
    let count: usize = summaries.len();
    let listed = Json::array(summaries);
    assert(listed@->Array_0 =~= summaries_in(found@));
    Json::object().with("count", Json::of_u64(count as u64)).with("messages", listed)
}

/// What a search answers, given the text of the reply: it fails exactly if the
/// text is no JSON.
pub open spec fn search_answer(text: Seq<char>) -> Result<Seq<char>, Seq<char>> {
    match document_of_text(text) {
        Err(why) => Err("Parse error: "@ + why),
        Ok(found) => Ok(pretty_text(search_document(found))),
    }
}

/// What the tool answers to a reply.
pub open spec fn answer_to(
    asked: Asked,
    reply: Result<(u16, Seq<u8>), Seq<char>>,
) -> Result<Seq<char>, Seq<char>> {
    match text_in(reply) {
        Err(e) => Err(e),
        Ok(text) => if asked is SearchMessages {
            search_answer(text)
        } else {
            Ok(text)
        },
    }
}

/// What a search answers, given the text of the reply.
pub fn summarise(text: &str) -> (r: Result<String, String>)
    ensures
        match r {
            Ok(answer) => search_answer(text@) == Ok::<Seq<char>, Seq<char>>(answer@),
            Err(e) => search_answer(text@) == Err::<Seq<char>, Seq<char>>(e@),
        },
{
    match Json::parse(text) {
        Ok(found) => search_facts(&found).to_pretty_text(),
        Err(why) => Err(joined("Parse error: ", why.as_str())),
    }
}

impl Action {
    /// The call that carries out what is asked for. Writing it never fails.
    pub fn request(&self) -> (r: Result<HttpRequest, String>)
        ensures
            r matches Ok(request) && request@ == call_for(self@),
    {
        match self {
            Action::GetAccounts => Ok(get_accounts()),
            Action::SearchMessages { account_id, query, limit } => Ok(
                search_messages(account_id.as_str(), query.as_str(), *limit),
            ),
            Action::GetMessage { account_id, message_id } => Ok(
                get_message(account_id.as_str(), message_id.as_str()),
            ),
            Action::ListFolders { account_id } => Ok(list_folders(account_id.as_str())),
            Action::ListTags { account_id } => Ok(list_tags(account_id.as_str())),
            Action::CreateTag { account_id, name, color } => {
                let color: Option<&str> = match color {
                    Some(c) => Some(c.as_str()),
                    None => None,
                };
                create_tag(account_id.as_str(), name.as_str(), color)
            },
            Action::TagMessage { account_id, message_id, tag_id } => tag_message(
                account_id.as_str(),
                message_id.as_str(),
                tag_id.as_str(),
            ),
            Action::UntagMessage { account_id, message_id, tag_id } => untag_message(
                account_id.as_str(),
                message_id.as_str(),
                tag_id.as_str(),
            ),
        }
    }

    /// What the tool answers to the reply.
    pub fn answer(&self, reply: HttpReply) -> (r: Result<String, String>)
        ensures
            match r {
                Ok(text) => answer_to(self@, reply_contents(reply)) == Ok::<Seq<char>, Seq<char>>(
                    text@,
                ),
                Err(e) => answer_to(self@, reply_contents(reply)) == Err::<Seq<char>, Seq<char>>(
                    e@,
                ),
            },
    {
        let text = api_reply(reply)?;
        match self {
            Action::SearchMessages { .. } => summarise(text.as_str()),
            _ => Ok(text),
        }
    }
}

/// Whatever is asked for, the call goes to the API's address.
pub proof fn law_calls_stay_with_the_api(asked: Asked)
    ensures
        call_for(asked).url.take(ZOHO_API_BASE@.len() as int) == ZOHO_API_BASE@,
{
    assert(call_for(asked).url.take(ZOHO_API_BASE@.len() as int) =~= ZOHO_API_BASE@);
}

/// A call changes nothing unless a tag is to be made, put on or taken off:
/// every other call is a `GET` without a body.
pub proof fn law_reading_calls_carry_no_body(asked: Asked)
    requires
        !(asked is CreateTag),
        !(asked is TagMessage),
        !(asked is UntagMessage),
    ensures
        call_for(asked).method == "GET"@,
        call_for(asked).body is None,
{
}

/// A search tells of every message that it found, in the order in which they
/// came, and counts them.
pub proof fn law_every_message_is_summarised(found: JsonValue)
    ensures
        search_document(found).field("messages"@) == JsonValue::Array(summaries_in(found)),
        summaries_in(found).len() == messages_in(found).len(),
        search_document(found).field("count"@) == JsonValue::Number(
            u64_number(messages_in(found).len() as u64),
        ),
        forall|i: int|
            0 <= i < messages_in(found).len() ==> #[trigger] summaries_in(found)[i].field(
                "messageId"@,
            ) == messages_in(found)[i].field("messageId"@),
{
    reveal_strlit("count");
    reveal_strlit("messages");
    reveal_strlit("messageId");
    reveal_strlit("subject");
    reveal_strlit("sender");
    reveal_strlit("from");
    reveal_strlit("receivedTime");
    reveal_strlit("summary");
    reveal_strlit("folderId");
    assert("count"@.len() != "messages"@.len());
    assert("messageId"@.len() == 9);
    assert("subject"@.len() == 7);
    assert("sender"@.len() == 6);
    assert("from"@.len() == 4);
    assert("receivedTime"@.len() == 12);
    assert("summary"@.len() == 7);
    assert("folderId"@.len() == 8);
}

/// Of each message that a search found, the report tells every field under its
/// own name, as the message has it: the id, the subject, the sender, the time,
/// the summary and the folder; and under `from` its `fromAddress`. It tells
/// nothing else.
pub proof fn law_summaries_tell_each_field(
    found: JsonValue,
    messages: Seq<JsonValue>,
    i: int,
    other: Seq<char>,
)
    requires
        found.member("data"@) == Some(JsonValue::Array(messages)),
        0 <= i < messages.len(),
    ensures
        search_document(found).field("messages"@) matches JsonValue::Array(told) && {
            &&& told.len() == messages.len()
            &&& told[i].field("messageId"@) == messages[i].field("messageId"@)
            &&& told[i].field("subject"@) == messages[i].field("subject"@)
            &&& told[i].field("sender"@) == messages[i].field("sender"@)
            &&& told[i].field("from"@) == messages[i].field("fromAddress"@)
            &&& told[i].field("receivedTime"@) == messages[i].field("receivedTime"@)
            &&& told[i].field("summary"@) == messages[i].field("summary"@)
            &&& told[i].field("folderId"@) == messages[i].field("folderId"@)
            &&& told[i].member(other) is Some ==> other == "messageId"@ || other == "subject"@ || other == "sender"@ || other == "from"@ || other == "receivedTime"@ || other == "summary"@ || other == "folderId"@
        },
{
    reveal_strlit("messageId");
    reveal_strlit("subject");
    reveal_strlit("sender");
    reveal_strlit("from");
    reveal_strlit("receivedTime");
    reveal_strlit("summary");
    reveal_strlit("folderId");
    assert("messageId"@.len() != "subject"@.len());
    assert("messageId"@.len() != "sender"@.len());
    assert("messageId"@.len() != "from"@.len());
    assert("messageId"@.len() != "receivedTime"@.len());
    assert("messageId"@.len() != "summary"@.len());
    assert("messageId"@.len() != "folderId"@.len());
    assert("subject"@.len() != "sender"@.len());
    assert("subject"@.len() != "from"@.len());
    assert("subject"@.len() != "receivedTime"@.len());
    assert("subject"@[2] != "summary"@[2]);
    assert("subject"@.len() != "folderId"@.len());
    assert("sender"@.len() != "from"@.len());
    assert("sender"@.len() != "receivedTime"@.len());
    assert("sender"@.len() != "summary"@.len());
    assert("sender"@.len() != "folderId"@.len());
    assert("from"@.len() != "receivedTime"@.len());
    assert("from"@.len() != "summary"@.len());
    assert("from"@.len() != "folderId"@.len());
    assert("receivedTime"@.len() != "summary"@.len());
    assert("receivedTime"@.len() != "folderId"@.len());
    assert("summary"@.len() != "folderId"@.len());
    reveal_strlit("count");
    reveal_strlit("messages");
    assert("count"@.len() != "messages"@.len());
    assert(messages_in(found) == messages);
    assert(summaries_in(found)[i] == summary_document(messages[i]));
}

/// The report of a search counts the messages that it lists: those under
/// `data`, or none where there is no list.
pub proof fn law_searches_count_their_messages(found: JsonValue, other: Seq<char>)
    ensures
        ({
            let report = search_document(found);
            let n: nat = match found.member("data"@) {
                Some(JsonValue::Array(messages)) => messages.len(),
                _ => 0,
            };
            &&& report.field("count"@) == JsonValue::Number(u64_number(n as u64))
            &&& report.field("messages"@) matches JsonValue::Array(told)
            &&& told.len() == n
            &&& report.member(other) is Some ==> other == "count"@ || other == "messages"@
        }),
{
    reveal_strlit("count");
    reveal_strlit("messages");
    assert("count"@.len() != "messages"@.len());
}

/// The body of the call that takes a tag off a message is the text of a
/// document that names the tag asked for, and no message; that of the call that
/// puts it on differs in the mode alone. Both go to the message, in the same
/// way.
pub proof fn law_tagging_names_the_tag(
    account_id: Seq<char>,
    message_id: Seq<char>,
    tag_id: Seq<char>,
    other: Seq<char>,
)
    ensures
        ({
            let on = call_for(Asked::TagMessage { account_id, message_id, tag_id });
            let off = call_for(Asked::UntagMessage { account_id, message_id, tag_id });
            let adding = tagging_document("addTag"@, tag_id);
            let removing = tagging_document("removeTag"@, tag_id);
            &&& on.body == Some(encode_utf8(written_text(adding)))
            &&& off.body == Some(encode_utf8(written_text(removing)))
            &&& adding.field("mode"@) == JsonValue::Text("addTag"@)
            &&& removing.field("mode"@) == JsonValue::Text("removeTag"@)
            &&& adding.field("tagid"@) == JsonValue::Text(tag_id)
            &&& removing.field("tagid"@) == JsonValue::Text(tag_id)
            &&& other != "mode"@ ==> adding.member(other) == removing.member(other)
            &&& removing.member(other) is Some ==> other == "mode"@ || other == "tagid"@
            &&& adding.member(other) is Some ==> other == "mode"@ || other == "tagid"@
            &&& on.method == "PUT"@ && off.method == "PUT"@
            &&& on.url == off.url
            &&& on.headers == off.headers
            &&& on.timeout_ms == off.timeout_ms
        }),
{
    reveal_strlit("mode");
    reveal_strlit("tagid");
    assert("mode"@.len() != "tagid"@.len());
}

/// The body of the call that makes a tag is the text of a document that tells
/// its name, and its color exactly if one is given.
pub proof fn law_new_tags_have_name_and_color(
    account_id: Seq<char>,
    name: Seq<char>,
    color: Option<Seq<char>>,
    other: Seq<char>,
)
    ensures
        ({
            let call = call_for(Asked::CreateTag { account_id, name, color });
            let tag = tag_document(name, color);
            &&& call.method == "POST"@
            &&& call.body == Some(encode_utf8(written_text(tag)))
            &&& tag.field("tagName"@) == JsonValue::Text(name)
            &&& color matches Some(c) ==> tag.field("color"@) == JsonValue::Text(c)
            &&& color is None ==> tag.member("color"@) is None
            &&& tag.member(other) is Some ==> other == "tagName"@ || other == "color"@
        }),
{
    reveal_strlit("tagName");
    reveal_strlit("color");
    assert("tagName"@.len() != "color"@.len());
}

/// Each call goes to the address of what it is about: the accounts, or what
/// belongs to the account asked for, with every id encoded in its place.
pub proof fn law_calls_have_their_addresses(
    account_id: Seq<char>,
    message_id: Seq<char>,
    tag_id: Seq<char>,
    name: Seq<char>,
    color: Option<Seq<char>>,
    query: Seq<char>,
    limit: u32,
)
    ensures
        ({
            let account = "https://mail.zoho.com.au/api/accounts/"@ + url_encoded(account_id);
            let message = account + "/messages/"@ + url_encoded(message_id);
            let tags = account + "/tags"@;
            &&& call_for(Asked::GetAccounts).url == "https://mail.zoho.com.au/api/accounts"@
            &&& call_for(Asked::SearchMessages { account_id, query, limit }).url == account
                + "/messages/search?searchKey="@ + url_encoded(query) + "&limit="@ + decimal(
                limit as nat,
            )
            &&& call_for(Asked::GetMessage { account_id, message_id }).url == message
            &&& call_for(Asked::ListFolders { account_id }).url == account + "/folders"@
            &&& call_for(Asked::ListTags { account_id }).url == tags
            &&& call_for(Asked::CreateTag { account_id, name, color }).url == tags
            &&& call_for(Asked::TagMessage { account_id, message_id, tag_id }).url == message
            &&& call_for(Asked::UntagMessage { account_id, message_id, tag_id }).url == message
        }),
{
    lemma_root();
    let root = "https://mail.zoho.com.au/api"@ + "/"@;
    let id = url_encoded(account_id);
    let path = account_path(account_id);
    lemma_regrouped(root, "accounts/"@, id);
    lemma_regrouped(root, path, "/folders"@);
    lemma_regrouped(root, path, "/tags"@);
    lemma_regrouped(root, path, "/messages/"@);
    lemma_regrouped(root, path + "/messages/"@, url_encoded(message_id));
    let search = path + "/messages/search?searchKey="@;
    lemma_regrouped(root, path, "/messages/search?searchKey="@);
    lemma_regrouped(root, search, url_encoded(query));
    lemma_regrouped(root, search + url_encoded(query), "&limit="@);
    lemma_regrouped(root, search + url_encoded(query) + "&limit="@, decimal(limit as nat));
}

proof fn lemma_regrouped(a: Seq<char>, b: Seq<char>, c: Seq<char>)
    ensures
        a + (b + c) == a + b + c,
{
    assert(a + (b + c) =~= a + b + c);
}

/// Where the addresses begin.
proof fn lemma_root()
    ensures
        "https://mail.zoho.com.au/api"@ + "/"@ + "accounts"@
            == "https://mail.zoho.com.au/api/accounts"@,
        "https://mail.zoho.com.au/api"@ + "/"@ + "accounts/"@
            == "https://mail.zoho.com.au/api/accounts/"@,
{
    reveal_strlit("https://mail.zoho.com.au/api");
    reveal_strlit("/");
    reveal_strlit("accounts");
    reveal_strlit("accounts/");
    reveal_strlit("https://mail.zoho.com.au/api/accounts");
    reveal_strlit("https://mail.zoho.com.au/api/accounts/");
    assert("https://mail.zoho.com.au/api"@ + "/"@ + "accounts"@
        =~= "https://mail.zoho.com.au/api/accounts"@);
    assert("https://mail.zoho.com.au/api"@ + "/"@ + "accounts/"@
        =~= "https://mail.zoho.com.au/api/accounts/"@);
}

/// A call is a `GET` exactly if it only reads; that which makes a tag is a
/// `POST`, and those that put a tag on a message or take it off are a `PUT`. A
/// body is sent exactly with the latter three, and said to be JSON.
pub proof fn law_calls_read_or_change(asked: Asked)
    ensures
        ({
            let call = call_for(asked);
            let changes = asked is CreateTag || asked is TagMessage || asked is UntagMessage;
            &&& !changes ==> call.method == "GET"@
            &&& asked is CreateTag ==> call.method == "POST"@
            &&& asked is TagMessage || asked is UntagMessage ==> call.method == "PUT"@
            &&& call.body is Some <==> changes
            &&& changes ==> call.headers == "{\"Content-Type\": \"application/json\"}"@
            &&& !changes ==> call.headers == "{}"@
            &&& call.timeout_ms is None
        }),
{
}

/// A request that gives its texts under their names asks for what its action
/// says, with each text in its place.
pub proof fn law_requests_are_read_by_name(
    request: JsonValue,
    action: Seq<char>,
    account_id: Seq<char>,
    message_id: Seq<char>,
    tag_id: Seq<char>,
    name: Seq<char>,
)
    requires
        request.text_member("action"@) == Some(action),
        request.text_member("account_id"@) == Some(account_id),
        request.text_member("message_id"@) == Some(message_id),
        request.text_member("tag_id"@) == Some(tag_id),
        request.text_member("tag_name"@) == Some(name),
    ensures
        action == "get_accounts"@ ==> asked_in(request) == Ok::<Asked, Seq<char>>(
            Asked::GetAccounts,
        ),
        action == "search_messages"@ ==> (asked_in(request) matches Ok(
            Asked::SearchMessages { account_id: account, query, limit },
        ) && account == account_id && query == (match request.text_member("query"@) {
            Some(given) => given,
            None => Seq::<char>::empty(),
        })),
        action == "get_message"@ ==> asked_in(request) == Ok::<Asked, Seq<char>>(
            Asked::GetMessage { account_id, message_id },
        ),
        action == "list_folders"@ ==> asked_in(request) == Ok::<Asked, Seq<char>>(
            Asked::ListFolders { account_id },
        ),
        action == "list_tags"@ ==> asked_in(request) == Ok::<Asked, Seq<char>>(
            Asked::ListTags { account_id },
        ),
        action == "create_tag"@ ==> asked_in(request) == Ok::<Asked, Seq<char>>(
            Asked::CreateTag { account_id, name, color: request.text_member("tag_color"@) },
        ),
        action == "tag_message"@ ==> asked_in(request) == Ok::<Asked, Seq<char>>(
            Asked::TagMessage { account_id, message_id, tag_id },
        ),
        action == "untag_message"@ ==> asked_in(request) == Ok::<Asked, Seq<char>>(
            Asked::UntagMessage { account_id, message_id, tag_id },
        ),
        asked_in(request) is Ok <==> action == "get_accounts"@ || action == "search_messages"@ || action == "get_message"@ || action == "list_folders"@ || action == "list_tags"@ || action == "create_tag"@ || action == "tag_message"@ || action == "untag_message"@,
{
    reveal_strlit("");
    assert(""@ =~= Seq::<char>::empty());
    reveal_strlit("get_accounts");
    reveal_strlit("search_messages");
    reveal_strlit("get_message");
    reveal_strlit("list_folders");
    reveal_strlit("list_tags");
    reveal_strlit("create_tag");
    reveal_strlit("tag_message");
    reveal_strlit("untag_message");
    assert("get_accounts"@.len() != "search_messages"@.len());
    assert("get_accounts"@.len() != "get_message"@.len());
    assert("get_accounts"@[0] != "list_folders"@[0]);
    assert("get_accounts"@.len() != "list_tags"@.len());
    assert("get_accounts"@.len() != "create_tag"@.len());
    assert("get_accounts"@.len() != "tag_message"@.len());
    assert("get_accounts"@.len() != "untag_message"@.len());
    assert("search_messages"@.len() != "get_message"@.len());
    assert("search_messages"@.len() != "list_folders"@.len());
    assert("search_messages"@.len() != "list_tags"@.len());
    assert("search_messages"@.len() != "create_tag"@.len());
    assert("search_messages"@.len() != "tag_message"@.len());
    assert("search_messages"@.len() != "untag_message"@.len());
    assert("get_message"@.len() != "list_folders"@.len());
    assert("get_message"@.len() != "list_tags"@.len());
    assert("get_message"@.len() != "create_tag"@.len());
    assert("get_message"@[0] != "tag_message"@[0]);
    assert("get_message"@.len() != "untag_message"@.len());
    assert("list_folders"@.len() != "list_tags"@.len());
    assert("list_folders"@.len() != "create_tag"@.len());
    assert("list_folders"@.len() != "tag_message"@.len());
    assert("list_folders"@.len() != "untag_message"@.len());
    assert("list_tags"@.len() != "create_tag"@.len());
    assert("list_tags"@.len() != "tag_message"@.len());
    assert("list_tags"@.len() != "untag_message"@.len());
    assert("create_tag"@.len() != "tag_message"@.len());
    assert("create_tag"@.len() != "untag_message"@.len());
    assert("tag_message"@.len() != "untag_message"@.len());
}

/// A request without an action, with one that does not exist, or without a text
/// that its action needs, is refused in words that tell which: the account is
/// asked for first, the message next, the tag last.
pub proof fn law_requests_lack_what_they_need(request: JsonValue, action: Seq<char>)
    ensures
        request.text_member("action"@) is None ==> asked_in(request) == Err::<Asked, Seq<char>>(
            "Missing 'action' field"@,
        ),
        request.text_member("action"@) == Some(action) ==> {
            let tagging = action == "tag_message"@ || action == "untag_message"@;
            let of_account = action == "search_messages"@ || action == "list_folders"@ || action
                == "list_tags"@;
            let account = request.text_member("account_id"@) is Some;
            let message = request.text_member("message_id"@) is Some;
            let tag = request.text_member("tag_id"@) is Some;
            let name = request.text_member("tag_name"@) is Some;
            let refusal = asked_in(request);
            let known = of_account || tagging || action == "get_message"@ || action
                == "create_tag"@;
            &&& known && !account ==> refusal == Err::<Asked, Seq<char>>(
                "Missing '"@ + "account_id"@ + "'"@,
            )
            &&& (tagging || action == "get_message"@) && account && !message ==> refusal == Err::<
                Asked,
                Seq<char>,
            >("Missing '"@ + "message_id"@ + "'"@)
            &&& tagging && account && message && !tag ==> refusal == Err::<Asked, Seq<char>>(
                "Missing '"@ + "tag_id"@ + "'"@,
            )
            &&& action == "create_tag"@ && account && !name ==> refusal == Err::<Asked, Seq<char>>(
                "Missing '"@ + "tag_name"@ + "'"@,
            )
            &&& refusal is Ok <==> {
                ||| action == "get_accounts"@
                ||| of_account && account
                ||| action == "get_message"@ && account && message
                ||| tagging && account && message && tag
                ||| action == "create_tag"@ && account && name
            }
            &&& !known && action != "get_accounts"@ ==> refusal == Err::<Asked, Seq<char>>(
                "Unknown action '"@ + action
                    + "'. Use: get_accounts, search_messages, get_message, list_folders, list_tags, create_tag, tag_message, untag_message"@,
            )
        },
{
    reveal_strlit("get_accounts");
    reveal_strlit("search_messages");
    reveal_strlit("get_message");
    reveal_strlit("list_folders");
    reveal_strlit("list_tags");
    reveal_strlit("create_tag");
    reveal_strlit("tag_message");
    reveal_strlit("untag_message");
    assert("get_accounts"@.len() != "search_messages"@.len());
    assert("get_accounts"@.len() != "get_message"@.len());
    assert("get_accounts"@[0] != "list_folders"@[0]);
    assert("get_accounts"@.len() != "list_tags"@.len());
    assert("get_accounts"@.len() != "create_tag"@.len());
    assert("get_accounts"@.len() != "tag_message"@.len());
    assert("get_accounts"@.len() != "untag_message"@.len());
    assert("search_messages"@.len() != "get_message"@.len());
    assert("search_messages"@.len() != "list_folders"@.len());
    assert("search_messages"@.len() != "list_tags"@.len());
    assert("search_messages"@.len() != "create_tag"@.len());
    assert("search_messages"@.len() != "tag_message"@.len());
    assert("search_messages"@.len() != "untag_message"@.len());
    assert("get_message"@.len() != "list_folders"@.len());
    assert("get_message"@.len() != "list_tags"@.len());
    assert("get_message"@.len() != "create_tag"@.len());
    assert("get_message"@[0] != "tag_message"@[0]);
    assert("get_message"@.len() != "untag_message"@.len());
    assert("list_folders"@.len() != "list_tags"@.len());
    assert("list_folders"@.len() != "create_tag"@.len());
    assert("list_folders"@.len() != "tag_message"@.len());
    assert("list_folders"@.len() != "untag_message"@.len());
    assert("list_tags"@.len() != "create_tag"@.len());
    assert("list_tags"@.len() != "tag_message"@.len());
    assert("list_tags"@.len() != "untag_message"@.len());
    assert("create_tag"@.len() != "tag_message"@.len());
    assert("create_tag"@.len() != "untag_message"@.len());
    assert("tag_message"@.len() != "untag_message"@.len());
}

/// A search brings as many messages as the request says, in 32 bits; 20 where
/// it says nothing that is a number of them.
pub proof fn law_searches_have_a_limit(request: JsonValue)
    ensures
        match request.field("limit"@).unsigned() {
            Some(n) => limit_in(request) == n % 0x1_0000_0000,
            None => limit_in(request) == 20,
        },
        request.text_member("action"@) == Some("search_messages"@) ==> (asked_in(request) matches Ok(
            Asked::SearchMessages { account_id, query, limit },
        ) ==> limit == limit_in(request)),
{
    if let Some(n) = request.field("limit"@).unsigned() {
        assert(n as u32 == n % 0x1_0000_0000) by (bit_vector);
    }
}

/// Bytes are encoded one behind the other: what stands before or behind does
/// not matter.
pub proof fn law_bytes_are_encoded_in_turn(a: Seq<u8>, b: Seq<u8>)
    ensures
        encoded(a + b) == encoded(a) + encoded(b),
        encoded(Seq::<u8>::empty()) == Seq::<char>::empty(),
    decreases a.len(),
{
    if a.len() == 0 {
        assert(a + b =~= b);
        assert(encoded(a) + encoded(b) =~= encoded(b));
    } else {
        assert((a + b).drop_first() =~= a.drop_first() + b);
        law_bytes_are_encoded_in_turn(a.drop_first(), b);
        assert(encoded(a + b) =~= encoded(a) + encoded(b));
    }
}

/// The value of a hexadecimal digit, `0` to `9` or `A` to `F`.
pub open spec fn hex_value(c: char) -> int {
    if '0' <= c <= '9' {
        c as int - '0' as int
    } else {
        c as int - 'A' as int + 10
    }
}

/// A letter, a digit, `-`, `_`, `.` or `~` is encoded as itself. Any other byte
/// is a percent sign and two hexadecimal digits, which are its value.
pub proof fn law_bytes_are_themselves_or_their_digits(b: u8)
    ensures
        ({
            let c = b as char;
            let e = encoded(seq![b]);
            let itself = 'A' <= c <= 'Z' || 'a' <= c <= 'z' || '0' <= c <= '9' || c == '-' || c
                == '_' || c == '.' || c == '~';
            &&& itself ==> e == seq![c]
            &&& !itself ==> {
                &&& e.len() == 3
                &&& e[0] == '%'
                &&& '0' <= e[1] <= '9' || 'A' <= e[1] <= 'F'
                &&& '0' <= e[2] <= '9' || 'A' <= e[2] <= 'F'
                &&& 16 * hex_value(e[1]) + hex_value(e[2]) == b
            }
        }),
{
    assert(seq![b].drop_first() =~= Seq::<u8>::empty());
    assert(encoded(Seq::<u8>::empty()) =~= Seq::<char>::empty());
    assert(encoded(seq![b]) =~= encoded_byte(b));
}

/// A text is encoded by the bytes of its UTF-8.
pub proof fn law_texts_are_encoded_by_their_bytes(s: Seq<char>)
    ensures
        url_encoded(s) == encoded(encode_utf8(s)),
{
}

/// The text of a reply is its whole body, where it has a status from 200 to 299
/// and a body of UTF-8. An empty body reads as an empty object.
pub proof fn law_the_text_is_the_whole_body(status: u16, body: Seq<u8>, why: Seq<char>)
    ensures
        ({
            let text = text_in(Ok((status, body)));
            let good = 200 <= status <= 299;
            &&& good && body.len() == 0 ==> text == Ok::<Seq<char>, Seq<char>>("{}"@)
            &&& good && body.len() > 0 && valid_utf8(body) ==> text == Ok::<Seq<char>, Seq<char>>(
                decode_utf8(body),
            )
            &&& good && body.len() > 0 && !valid_utf8(body) ==> text == Err::<
                Seq<char>,
                Seq<char>,
            >("Invalid UTF-8 in response: "@ + utf8_complaint(body))
            &&& !good ==> text == Err::<Seq<char>, Seq<char>>(
                "Zoho API returned status "@ + decimal(status as nat) + ": "@ + lossy_text(body),
            )
            &&& text_in(Err(why)) == Err::<Seq<char>, Seq<char>>(why)
        }),
{
    assert(body.len() == 0 ==> body =~= Seq::<u8>::empty());
}

/// What the API sends as text is what the caller is told, of every action but a
/// search, whose messages are summarised. What fails, fails in the words of the
/// failure.
pub proof fn law_answers_are_the_replys(asked: Asked, status: u16, text: Seq<char>)
    requires
        200 <= status <= 299,
        text.len() > 0,
    ensures
        ({
            let reply = Ok::<(u16, Seq<u8>), Seq<char>>((status, encode_utf8(text)));
            &&& !(asked is SearchMessages) ==> answer_to(asked, reply) == Ok::<
                Seq<char>,
                Seq<char>,
            >(text)
            &&& asked is SearchMessages ==> match document_of_text(text) {
                Ok(found) => answer_to(asked, reply) == Ok::<Seq<char>, Seq<char>>(
                    pretty_text(search_document(found)),
                ),
                Err(why) => answer_to(asked, reply) == Err::<Seq<char>, Seq<char>>(
                    "Parse error: "@ + why,
                ),
            }
        }),
{
    encode_utf8_decode_utf8(text);
    encode_utf8_valid_utf8(text);
    let body = encode_utf8(text);
    if body.len() == 0 {
        assert(body =~= Seq::<u8>::empty());
        assert(encode_utf8(Seq::<char>::empty()) =~= Seq::<u8>::empty());
        encode_utf8_decode_utf8(Seq::<char>::empty());
    }
}

/// A reply that is no success fails every action alike.
pub proof fn law_failures_are_handed_on(
    asked: Asked,
    reply: Result<(u16, Seq<u8>), Seq<char>>,
    why: Seq<char>,
)
    requires
        text_in(reply) == Err::<Seq<char>, Seq<char>>(why),
    ensures
        answer_to(asked, reply) == Err::<Seq<char>, Seq<char>>(why),
{
}

/// What an action asks for is what it holds, text by text.
pub proof fn law_actions_ask_for_what_they_hold(
    account_id: String,
    message_id: String,
    tag_id: String,
    name: String,
    color: Option<String>,
    query: String,
    limit: u32,
)
    ensures
        Action::GetAccounts@ == Asked::GetAccounts,
        (Action::SearchMessages { account_id, query, limit })@ == (Asked::SearchMessages {
            account_id: account_id@,
            query: query@,
            limit,
        }),
        (Action::GetMessage { account_id, message_id })@ == (Asked::GetMessage {
            account_id: account_id@,
            message_id: message_id@,
        }),
        (Action::ListFolders { account_id })@ == (Asked::ListFolders { account_id: account_id@ }),
        (Action::ListTags { account_id })@ == (Asked::ListTags { account_id: account_id@ }),
        (Action::CreateTag { account_id, name, color })@ matches Asked::CreateTag {
            account_id: account,
            name: named,
            color: colored,
        } && account == account_id@ && named == name@ && (color is Some <==> colored is Some) && (
        color matches Some(c) ==> colored == Some(c@)),
        (Action::TagMessage { account_id, message_id, tag_id })@ == (Asked::TagMessage {
            account_id: account_id@,
            message_id: message_id@,
            tag_id: tag_id@,
        }),
        (Action::UntagMessage { account_id, message_id, tag_id })@ == (Asked::UntagMessage {
            account_id: account_id@,
            message_id: message_id@,
            tag_id: tag_id@,
        }),
{
}

}

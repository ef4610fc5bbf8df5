//! The stable code that stands for an error, and the answer that carries it.
use vstd::prelude::*;

use crate::json::{compact_text, empty_object, Json, JsonValue};
use crate::loom_render::drive::{audio_in, picture_in, uploaded_id_in};
use crate::loom_render::params::{short_edge, Params};
use crate::text::{begins_with, contains_text, has_part, occurs_at, starts_with};
use crate::tool::Response;

verus! {

/// Whether an error speaks of encoding.
pub open spec fn speaks_of_encoding(error: Seq<char>) -> bool {
    has_part(error, "encoder"@) || has_part(error, "encode"@) || has_part(error, "mux"@)
}

/// Whether an error speaks of the request.
pub open spec fn speaks_of_input(error: Seq<char>) -> bool {
    ||| begins_with(error, "invalid params"@)
    ||| has_part(error, "must not be empty"@)
    ||| has_part(error, "must start with"@)
    ||| has_part(error, "unsupported resolution"@)
    ||| has_part(error, "unsupported aspect_ratio"@)
    ||| has_part(error, "duration_sec must"@)
}

/// The code of an error: the stage that it comes from, by how it begins, and
/// otherwise by what it speaks of.
pub open spec fn code_of(error: Seq<char>) -> Seq<char> {
    if begins_with(error, "drive download"@) || begins_with(error, "audio file"@) {
        "loom_drive_download_failed"@
    } else if begins_with(error, "screenshot"@) {
        "loom_screenshot_failed"@
    } else if begins_with(error, "drive upload"@) {
        "loom_drive_upload_failed"@
    } else if speaks_of_encoding(error) {
        "loom_encode_failed"@
    } else if speaks_of_input(error) {
        "loom_invalid_input"@
    } else {
        "loom_render_failed"@
    }
}

/// The code of an error.
pub fn error_code(error: &str) -> (r: &'static str)
    ensures
        r@ == code_of(error@),
{
    if starts_with(error, "drive download") || starts_with(error, "audio file") {
        "loom_drive_download_failed"
    } else if starts_with(error, "screenshot") {
        "loom_screenshot_failed"
    } else if starts_with(error, "drive upload") {
        "loom_drive_upload_failed"
    } else if contains_text(error, "encoder") || contains_text(error, "encode") || contains_text(
        error,
        "mux",
    ) {
        "loom_encode_failed"
    } else if starts_with(error, "invalid params") || contains_text(error, "must not be empty")
        || contains_text(error, "must start with") || contains_text(
        error,
        "unsupported resolution",
    ) || contains_text(error, "unsupported aspect_ratio") || contains_text(
        error,
        "duration_sec must",
    ) {
        "loom_invalid_input"
    } else {
        "loom_render_failed"
    }
}

/// What the caller is told of an error: its code, and nothing of its text.
pub open spec fn error_document(code: Seq<char>) -> JsonValue {
    empty_object().with("code"@, JsonValue::Text(code)).with(
        "kind"@,
        JsonValue::Text("operation_failed"@),
    )
}

/// What the caller is told of an error, as a document.
pub fn error_facts(error: &str) -> (r: Json)
    ensures
        r@ == error_document(code_of(error@)),
{
    Json::object().with("code", Json::of_text(error_code(error))).with(
        "kind",
        Json::of_text("operation_failed"),
    )
}

/// What the caller is told of an error, as JSON text.
pub fn structured_error(error: &str) -> (r: String)
    ensures
        r@ == compact_text(error_document(code_of(error@))),
{
    error_facts(error).to_text()
}

/// The answer of the tool: the output as it is, an error by its code.
pub fn respond(result: Result<String, String>) -> (r: Response)
    ensures
        match result {
            Ok(output) => r.output == Some(output) && r.error is None,
            Err(e) => {
                &&& r.output is None
                &&& r.error matches Some(text)
                &&& text@ == compact_text(error_document(code_of(e@)))
            },
        },
{
    match result {
        Ok(output) => Response { output: Some(output), error: None },
        Err(e) => Response { output: None, error: Some(structured_error(e.as_str())) },
    }
}

/// The caller learns nothing of an error but its code: errors with the same
/// code are answered alike.
pub proof fn law_answers_hide_the_text(first: Seq<char>, second: Seq<char>)
    requires
        code_of(first) == code_of(second),
    ensures
        compact_text(error_document(code_of(first))) == compact_text(
            error_document(code_of(second)),
        ),
{
}

/// Text that begins with a longer text begins with what that begins with.
proof fn lemma_begins(whole: Seq<char>, longer: Seq<char>, prefix: Seq<char>)
    requires
        begins_with(longer, prefix),
        begins_with(whole, longer),
    ensures
        begins_with(whole, prefix),
{
    assert(whole.take(prefix.len() as int) =~= whole.take(longer.len() as int).take(
        prefix.len() as int,
    ));
}

/// Two texts one behind the other begin with the first.
proof fn lemma_joined_begins(a: Seq<char>, b: Seq<char>)
    ensures
        begins_with(a + b, a),
{
    assert((a + b).take(a.len() as int) =~= a);
}

/// Every failure to download the audio has the code of that stage.
pub proof fn law_download_failures_have_their_code(
    file_id: Seq<char>,
    reply: Result<(u16, Seq<u8>), Seq<char>>,
)
    ensures
        audio_in(file_id, reply) matches Err(e) ==> code_of(e) == "loom_drive_download_failed"@,
{
    reveal_strlit("drive download");
    reveal_strlit("audio file");
    reveal_strlit("drive download request failed: ");
    reveal_strlit("drive download returned status ");
    reveal_strlit("audio file ");
    let d = "drive download"@;
    let a = "audio file"@;
    assert(begins_with("drive download request failed: "@, d)) by {
        assert("drive download request failed: "@.take(14) =~= d);
    }
    assert(begins_with("drive download returned status "@, d)) by {
        assert("drive download returned status "@.take(14) =~= d);
    }
    assert(begins_with("audio file "@, a)) by {
        assert("audio file "@.take(10) =~= a);
    }
    if let Err(e) = audio_in(file_id, reply) {
        match reply {
            Err(why) => {
                lemma_joined_begins("drive download request failed: "@, why);
                lemma_begins(e, "drive download request failed: "@, d);
            },
            Ok((status, body)) => if 200 <= status < 300 {
                lemma_joined_begins("audio file "@, file_id);
                lemma_joined_begins("audio file "@ + file_id, " is empty"@);
                lemma_begins(e, "audio file "@ + file_id, "audio file "@);
                lemma_begins(e, "audio file "@, a);
            } else {
                lemma_joined_begins(
                    "drive download returned status "@,
                    crate::text::decimal(status as nat),
                );
                lemma_begins(e, "drive download returned status "@, d);
            },
        }
    }
}

/// Every failure to capture the website has the code of that stage.
pub proof fn law_capture_failures_have_their_code(reply: Result<(u16, Seq<u8>), Seq<char>>)
    ensures
        picture_in(reply) matches Err(e) ==> code_of(e) == "loom_screenshot_failed"@,
{
    reveal_strlit("drive download");
    reveal_strlit("audio file");
    reveal_strlit("screenshot");
    reveal_strlit("screenshot request failed: ");
    reveal_strlit("screenshot service returned status ");
    reveal_strlit("screenshot service returned an empty image");
    let p = "screenshot"@;
    assert(begins_with("screenshot request failed: "@, p)) by {
        assert("screenshot request failed: "@.take(10) =~= p);
    }
    assert(begins_with("screenshot service returned status "@, p)) by {
        assert("screenshot service returned status "@.take(10) =~= p);
    }
    assert(begins_with("screenshot service returned an empty image"@, p)) by {
        assert("screenshot service returned an empty image"@.take(10) =~= p);
    }
    if let Err(e) = picture_in(reply) {
        match reply {
            Err(why) => {
                lemma_joined_begins("screenshot request failed: "@, why);
                lemma_begins(e, "screenshot request failed: "@, p);
            },
            Ok((status, body)) => if !(200 <= status < 300) {
                lemma_joined_begins(
                    "screenshot service returned status "@,
                    crate::text::decimal(status as nat),
                );
                lemma_begins(e, "screenshot service returned status "@, p);
            },
        }
        assert(e.take(10)[0] == 's');
        assert(!begins_with(e, "drive download"@)) by {
            if begins_with(e, "drive download"@) {
                assert(e.take(14)[0] == 'd');
            }
        }
        assert(!begins_with(e, "audio file"@)) by {
            if begins_with(e, "audio file"@) {
                assert(e.take(10)[0] == 'a');
            }
        }
    }
}

/// Every failure to upload the video has the code of that stage.
pub proof fn law_upload_failures_have_their_code(reply: Result<(u16, Seq<u8>), Seq<char>>)
    ensures
        uploaded_id_in(reply) matches Err(e) ==> code_of(e) == "loom_drive_upload_failed"@,
{
    reveal_strlit("drive download");
    reveal_strlit("audio file");
    reveal_strlit("screenshot");
    reveal_strlit("drive upload");
    reveal_strlit("drive upload request failed: ");
    reveal_strlit("drive upload returned status ");
    reveal_strlit("drive upload returned unparseable JSON: ");
    reveal_strlit("drive upload returned no file id");
    let p = "drive upload"@;
    assert(begins_with("drive upload request failed: "@, p)) by {
        assert("drive upload request failed: "@.take(12) =~= p);
    }
    assert(begins_with("drive upload returned status "@, p)) by {
        assert("drive upload returned status "@.take(12) =~= p);
    }
    assert(begins_with("drive upload returned unparseable JSON: "@, p)) by {
        assert("drive upload returned unparseable JSON: "@.take(12) =~= p);
    }
    assert(begins_with("drive upload returned no file id"@, p)) by {
        assert("drive upload returned no file id"@.take(12) =~= p);
    }
    if let Err(e) = uploaded_id_in(reply) {
        match reply {
            Err(why) => {
                lemma_joined_begins("drive upload request failed: "@, why);
                lemma_begins(e, "drive upload request failed: "@, p);
            },
            Ok((status, body)) => if !(200 <= status < 300) {
                lemma_joined_begins(
                    "drive upload returned status "@,
                    crate::text::decimal(status as nat),
                );
                lemma_begins(e, "drive upload returned status "@, p);
            } else if let Err(why) = crate::json::document_of_bytes(body) {
                lemma_joined_begins("drive upload returned unparseable JSON: "@, why);
                lemma_begins(e, "drive upload returned unparseable JSON: "@, p);
            },
        }
        assert(e.take(12)[0] == 'd');
        assert(e.take(12)[6] == 'u');
        assert(!begins_with(e, "drive download"@)) by {
            if begins_with(e, "drive download"@) {
                assert(e.take(14)[6] == 'd');
            }
        }
        assert(!begins_with(e, "audio file"@)) by {
            if begins_with(e, "audio file"@) {
                assert(e.take(10)[0] == 'a');
            }
        }
        assert(!begins_with(e, "screenshot"@)) by {
            if begins_with(e, "screenshot"@) {
                assert(e.take(10)[0] == 's');
            }
        }
    }
}

/// Whether the first `n` characters of `s` hold no `a` with a `b` behind it.
spec fn lacks_pair(s: Seq<char>, a: char, b: char, n: nat) -> bool
    decreases n,
{
    n < 2 || (!(s[n - 2] == a && s[n - 1] == b) && lacks_pair(s, a, b, (n - 1) as nat))
}

proof fn lemma_lacks_pair(s: Seq<char>, a: char, b: char, n: nat, at: int)
    requires
        lacks_pair(s, a, b, n),
        0 <= at,
        at + 1 < n,
    ensures
        !(s[at] == a && s[at + 1] == b),
    decreases n,
{
    if at + 2 < n {
        lemma_lacks_pair(s, a, b, (n - 1) as nat, at);
    }
}

/// Text without the pairs `nc` and `ux` does not speak of encoding.
proof fn lemma_no_word_of_encoding(s: Seq<char>)
    requires
        lacks_pair(s, 'n', 'c', s.len()),
        lacks_pair(s, 'u', 'x', s.len()),
    ensures
        !speaks_of_encoding(s),
{
    reveal_strlit("encoder");
    reveal_strlit("encode");
    reveal_strlit("mux");
    assert forall|at: int| !occurs_at(s, "encoder"@, at) by {
        if occurs_at(s, "encoder"@, at) {
            assert(s.subrange(at, at + 7)[1] == 'n' && s.subrange(at, at + 7)[2] == 'c');
            lemma_lacks_pair(s, 'n', 'c', s.len(), at + 1);
        }
    }
    assert forall|at: int| !occurs_at(s, "encode"@, at) by {
        if occurs_at(s, "encode"@, at) {
            assert(s.subrange(at, at + 6)[1] == 'n' && s.subrange(at, at + 6)[2] == 'c');
            lemma_lacks_pair(s, 'n', 'c', s.len(), at + 1);
        }
    }
    assert forall|at: int| !occurs_at(s, "mux"@, at) by {
        if occurs_at(s, "mux"@, at) {
            assert(s.subrange(at, at + 3)[1] == 'u' && s.subrange(at, at + 3)[2] == 'x');
            lemma_lacks_pair(s, 'u', 'x', s.len(), at + 1);
        }
    }
}

/// Text whose first character, or whose sixth where the first is shared, is
/// not that of a stage begins like the errors of none.
proof fn lemma_of_no_stage(e: Seq<char>)
    requires
        e.len() > 5,
        e[0] != 's',
        e[0] != 'u' ==> e[5] != ' ',
    ensures
        !begins_with(e, "drive download"@),
        !begins_with(e, "audio file"@),
        !begins_with(e, "screenshot"@),
        !begins_with(e, "drive upload"@),
{
    reveal_strlit("drive download");
    reveal_strlit("audio file");
    reveal_strlit("screenshot");
    reveal_strlit("drive upload");
    if begins_with(e, "drive download"@) {
        assert(e.take(14)[0] == 'd' && e.take(14)[5] == ' ');
    }
    if begins_with(e, "audio file"@) {
        assert(e.take(10)[0] == 'a' && e.take(10)[5] == ' ');
    }
    if begins_with(e, "screenshot"@) {
        assert(e.take(10)[0] == 's');
    }
    if begins_with(e, "drive upload"@) {
        assert(e.take(12)[0] == 'd' && e.take(12)[5] == ' ');
    }
}

#[verifier::spinoff_prover]
proof fn lemma_code_no_audio()
    ensures
        code_of("audio_drive_file_id must not be empty"@) == "loom_invalid_input"@,
{
    let e = "audio_drive_file_id must not be empty"@;
    reveal_strlit("audio_drive_file_id must not be empty");
    reveal_strlit("must not be empty");
    lemma_of_no_stage(e);
    assert(!speaks_of_encoding(e)) by {
        assert(lacks_pair(e, 'n', 'c', 37)) by {
            reveal_with_fuel(lacks_pair, 37);
        }
        assert(lacks_pair(e, 'u', 'x', 37)) by {
            reveal_with_fuel(lacks_pair, 37);
        }
        lemma_no_word_of_encoding(e);
    }
    assert(e.subrange(20, 37) =~= "must not be empty"@);
    assert(occurs_at(e, "must not be empty"@, 20));
}

#[verifier::spinoff_prover]
proof fn lemma_code_no_website()
    ensures
        code_of("website_url must not be empty"@) == "loom_invalid_input"@,
{
    let e = "website_url must not be empty"@;
    reveal_strlit("website_url must not be empty");
    reveal_strlit("must not be empty");
    lemma_of_no_stage(e);
    assert(!speaks_of_encoding(e)) by {
        assert(lacks_pair(e, 'n', 'c', 29)) by {
            reveal_with_fuel(lacks_pair, 29);
        }
        assert(lacks_pair(e, 'u', 'x', 29)) by {
            reveal_with_fuel(lacks_pair, 29);
        }
        lemma_no_word_of_encoding(e);
    }
    assert(e.subrange(12, 29) =~= "must not be empty"@);
    assert(occurs_at(e, "must not be empty"@, 12));
}

#[verifier::spinoff_prover]
proof fn lemma_code_no_folder()
    ensures
        code_of("drive_output_folder_id must not be empty"@) == "loom_invalid_input"@,
{
    let e = "drive_output_folder_id must not be empty"@;
    reveal_strlit("drive_output_folder_id must not be empty");
    reveal_strlit("must not be empty");
    lemma_of_no_stage(e);
    assert(!speaks_of_encoding(e)) by {
        assert(lacks_pair(e, 'n', 'c', 40)) by {
            reveal_with_fuel(lacks_pair, 40);
        }
        assert(lacks_pair(e, 'u', 'x', 40)) by {
            reveal_with_fuel(lacks_pair, 40);
        }
        lemma_no_word_of_encoding(e);
    }
    assert(e.subrange(23, 40) =~= "must not be empty"@);
    assert(occurs_at(e, "must not be empty"@, 23));
}

#[verifier::spinoff_prover]
proof fn lemma_code_scheme()
    ensures
        code_of("website_url must start with http:// or https://"@) == "loom_invalid_input"@,
{
    let e = "website_url must start with http:// or https://"@;
    reveal_strlit("website_url must start with http:// or https://");
    reveal_strlit("must start with");
    lemma_of_no_stage(e);
    assert(!speaks_of_encoding(e)) by {
        assert(lacks_pair(e, 'n', 'c', 47)) by {
            reveal_with_fuel(lacks_pair, 47);
        }
        assert(lacks_pair(e, 'u', 'x', 47)) by {
            reveal_with_fuel(lacks_pair, 47);
        }
        lemma_no_word_of_encoding(e);
    }
    assert(e.subrange(12, 27) =~= "must start with"@);
    assert(occurs_at(e, "must start with"@, 12));
}

#[verifier::spinoff_prover]
proof fn lemma_code_duration()
    ensures
        code_of("duration_sec must be between 1 and 120 seconds"@) == "loom_invalid_input"@,
{
    let e = "duration_sec must be between 1 and 120 seconds"@;
    reveal_strlit("duration_sec must be between 1 and 120 seconds");
    reveal_strlit("duration_sec must");
    lemma_of_no_stage(e);
    assert(!speaks_of_encoding(e)) by {
        assert(lacks_pair(e, 'n', 'c', 46)) by {
            reveal_with_fuel(lacks_pair, 46);
        }
        assert(lacks_pair(e, 'u', 'x', 46)) by {
            reveal_with_fuel(lacks_pair, 46);
        }
        lemma_no_word_of_encoding(e);
    }
    assert(e.subrange(0, 17) =~= "duration_sec must"@);
    assert(occurs_at(e, "duration_sec must"@, 0));
}

/// Every refused request has the code of invalid input; left out are only a
/// resolution or an aspect ratio whose own text speaks of encoding.
pub proof fn law_refused_requests_have_their_code(p: Params)
    requires
        p.objection() is Some,
        p.size() matches Err(e) ==> p.objection() == Some(e) ==> !speaks_of_encoding(e),
    ensures
        code_of(p.objection()->Some_0) == "loom_invalid_input"@,
{
    let e = p.objection()->Some_0;
    lemma_code_no_audio();
    lemma_code_no_website();
    lemma_code_no_folder();
    lemma_code_scheme();
    lemma_code_duration();
    if p.size() is Err && p.objection() == Some(p.size()->Err_0) {
        if short_edge(p.resolution@) is None {
            reveal_strlit("unsupported resolution '");
            reveal_strlit("unsupported resolution");
            let head = "unsupported resolution '"@;
            assert(e.take(24) =~= head);
            assert(e[0] == head[0]);
            assert(e.subrange(0, 22) =~= "unsupported resolution"@);
            assert(occurs_at(e, "unsupported resolution"@, 0));
        } else {
            reveal_strlit("unsupported aspect_ratio '");
            reveal_strlit("unsupported aspect_ratio");
            let head = "unsupported aspect_ratio '"@;
            assert(e.take(26) =~= head);
            assert(e[0] == head[0]);
            assert(e.subrange(0, 24) =~= "unsupported aspect_ratio"@);
            assert(occurs_at(e, "unsupported aspect_ratio"@, 0));
        }
        lemma_of_no_stage(e);
    }
}

/// The code of an error is that of the stage whose words it begins with; of the
/// others, those that speak of encoding or of muxing have the code of encoding,
/// those of the rest that speak of the request that of invalid input, and
/// whatever is left that of a failed render.
pub proof fn law_each_error_has_the_code_of_its_words(e: Seq<char>)
    ensures
        ({
            let download = begins_with(e, "drive download"@) || begins_with(e, "audio file"@);
            let capture = begins_with(e, "screenshot"@);
            let upload = begins_with(e, "drive upload"@);
            let encoding = has_part(e, "encode"@) || has_part(e, "mux"@);
            let input = begins_with(e, "invalid params"@) || has_part(e, "must not be empty"@)
                || has_part(e, "must start with"@) || has_part(e, "unsupported resolution"@)
                || has_part(e, "unsupported aspect_ratio"@) || has_part(e, "duration_sec must"@);
            let code = code_of(e);
            &&& download ==> code == "loom_drive_download_failed"@
            &&& !download && capture ==> code == "loom_screenshot_failed"@
            &&& !download && !capture && upload ==> code == "loom_drive_upload_failed"@
            &&& !download && !capture && !upload && encoding ==> code == "loom_encode_failed"@
            &&& !download && !capture && !upload && !encoding && input ==> code
                == "loom_invalid_input"@
            &&& !download && !capture && !upload && !encoding && !input ==> code
                == "loom_render_failed"@
        }),
{
    // What speaks of an encoder speaks of encoding.
    reveal_strlit("encoder");
    reveal_strlit("encode");
    if has_part(e, "encoder"@) {
        let at = choose|at: int| occurs_at(e, "encoder"@, at);
        assert(e.subrange(at, at + 6) =~= e.subrange(at, at + 7).take(6));
        assert("encoder"@.take(6) =~= "encode"@);
        assert(occurs_at(e, "encode"@, at));
    }
}

/// The caller is told the code of an error and that an operation failed, each
/// under its name, and nothing else.
pub proof fn law_answers_tell_the_code(code: Seq<char>, other: Seq<char>)
    ensures
        error_document(code).field("code"@) == JsonValue::Text(code),
        error_document(code).field("kind"@) == JsonValue::Text("operation_failed"@),
        error_document(code).member(other) is Some ==> other == "code"@ || other == "kind"@,
{
    reveal_strlit("code");
    reveal_strlit("kind");
    assert("code"@[0] != "kind"@[0]);
}

}

//! What ffmpeg's calls report back, and how a failure reads.
use vstd::prelude::*;

use crate::text::{joined, joined3, signed_decimal, signed_text};

verus! {

/// The reply "nothing to hand out yet, send more": the negated `EAGAIN` of
/// wasm32-wasi, which is 6 there and not 11 as on Linux.
pub const AVERROR_EAGAIN: i32 = -6;

/// The reply "everything has been handed out".
pub const AVERROR_EOF_VAL: i32 = -541_478_725;

/// The planar float sample format.
pub const FLTP: i32 = 8;

/// Whether a reply to a receive call means that it has nothing to hand out,
/// which is no failure.
pub open spec fn drained(reply: i32) -> bool {
    reply == AVERROR_EAGAIN || reply == AVERROR_EOF_VAL
}

/// How a failed call reads.
pub open spec fn ffmpeg_failure(context: Seq<char>, code: i32) -> Seq<char> {
    context + " (ffmpeg error "@ + signed_decimal(code as int) + ")"@
}

/// Whether a reply to a receive call means that it has nothing to hand out.
pub fn is_drained(reply: i32) -> (r: bool)
    ensures
        r == drained(reply),
{
    reply == AVERROR_EAGAIN || reply == AVERROR_EOF_VAL
}

/// How a failed call reads.
pub fn ffmpeg_err(context: &str, code: i32) -> (r: String)
    ensures
        r@ == ffmpeg_failure(context@, code),
{
    let number = signed_text(code as i64);
    let head = joined3(context, " (ffmpeg error ", number.as_str());
    joined(head.as_str(), ")")
}

/// Nothing is to be handed out exactly if a receive call replies that more must
/// be sent or that everything has been handed out; no frame and no other
/// failure is taken for it.
pub proof fn law_two_replies_mean_drained(reply: i32)
    ensures
        drained(reply) <==> reply == -6 || reply == -541_478_725,
        reply >= 0 ==> !drained(reply),
{
}

/// A failure reads as what failed, followed by the code: different codes read
/// differently.
pub proof fn law_failures_tell_their_code(context: Seq<char>, code: i32)
    ensures
        ({
            let told = ffmpeg_failure(context, code);
            let number = signed_decimal(code as int);
            let n = context.len() as int;
            &&& told.len() == n + 15 + number.len() + 1
            &&& told.take(n) == context
            &&& told.subrange(n, n + 15) == " (ffmpeg error "@
            &&& told.subrange(n + 15, n + 15 + number.len() as int) == number
            &&& told.last() == ')'
        }),
{
    reveal_strlit(" (ffmpeg error ");
    reveal_strlit(")");
    let told = ffmpeg_failure(context, code);
    let number = signed_decimal(code as int);
    let n = context.len() as int;
    assert(" (ffmpeg error "@.len() == 15);
    assert(told.take(n) =~= context);
    assert(told.subrange(n, n + 15) =~= " (ffmpeg error "@);
    assert(told.subrange(n + 15, n + 15 + number.len() as int) =~= number);
}

}

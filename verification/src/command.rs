//! The one command that the bot answers in the channel: a liveness check.

use vstd::prelude::*;
use vstd::string::StrSliceExecFns;

verus! {

/// What a liveness check starts with.
pub const PING: &'static str = "!ping";

/// What a liveness check is answered with.
pub const PONG: &'static str = "Pong!";

/// `content` is a liveness check: it starts with `!ping`.
pub open spec fn is_ping(content: Seq<char>) -> bool {
    PING@.is_prefix_of(content)
}

/// The answer to a message with the content `content`: `Pong!` to a liveness
/// check, and none to anything else.
pub fn reply_to(content: &str) -> (reply: Option<&'static str>)
    ensures
        reply is Some <==> is_ping(content@),
        reply matches Some(text) ==> text@ == PONG@,
{
    let wanted = PING.unicode_len();
    if content.unicode_len() < wanted {
        return None;
    }
    let mut index: usize = 0;
    while index < wanted
        invariant
            index <= wanted,
            wanted == PING@.len(),
            wanted <= content@.len(),
            forall|i: int| 0 <= i < index ==> content@[i] == PING@[i],
        decreases wanted - index,
    {
        if content.get_char(index) != PING.get_char(index) {
            return None;
        }
        index += 1;
    }
    assert(PING@ =~= content@.subrange(0, PING@.len() as int));
    Some(PONG)
}

} // verus!

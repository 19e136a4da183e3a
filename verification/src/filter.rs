//! Admission rules: which incoming messages warrant a model call, and the
//! question such a message carries.

use vstd::prelude::*;
use crate::message::IncomingMessage;
use crate::text::trim_spec;
use crate::text::trim_str;

verus! {

/// The literal command marker that activates question answering.
pub open spec fn marker() -> Seq<char> {
    seq!['!', 'a', 's', 'k']
}

/// Does `s` start with the command marker?
pub open spec fn starts_with_marker(s: Seq<char>) -> bool {
    s.len() >= marker().len() && s.subrange(0, marker().len() as int) == marker()
}

/// The question a command carries: what stands after the marker, with
/// surrounding whitespace removed. Meaningful when `starts_with_marker`
/// holds of `s`.
pub open spec fn question_of(s: Seq<char>) -> Seq<char> {
    trim_spec(s.subrange(marker().len() as int, s.len() as int))
}

/// The admission rules, applied in order: a message is processed iff its
/// author is not a bot, it carries no membership metadata, its text starts
/// with the command marker, and a non-empty question remains once the
/// marker and surrounding whitespace are stripped.
pub open spec fn admits(msg: IncomingMessage) -> bool {
    &&& !msg.author_bot
    &&& msg.membership is None
    &&& starts_with_marker(msg.content@)
    &&& question_of(msg.content@).len() > 0
}

/// What the filter decides for one message.
pub enum FilterDecision {
    /// The message warrants no processing.
    Ignore,
    /// The message is admitted; the payload is its question.
    Process(String),
}

/// Does `s` start with the literal command marker?
pub fn has_marker(s: &str) -> (r: bool)
    ensures
        r == starts_with_marker(s@),
{
    let n = s.unicode_len();
    if n < 4 {
        return false;
    }
    let r = s.get_char(0) == '!' && s.get_char(1) == 'a' && s.get_char(2) == 's'
        && s.get_char(3) == 'k';
    proof {
        let sub = s@.subrange(0, 4);
        assert(sub[0] == s@[0] && sub[1] == s@[1] && sub[2] == s@[2] && sub[3] == s@[3]);
        if r {
            assert(sub =~= marker());
        }
    }
    r
}

/// Applies the admission rules to one message.
pub fn filter_message(msg: &IncomingMessage) -> (r: FilterDecision)
    ensures
        (r is Process) <==> admits(*msg),
        r matches FilterDecision::Process(q) ==> q@ == question_of(msg.content@),
{
    if msg.author_bot {
        return FilterDecision::Ignore;
    }
    if msg.membership.is_some() {
        return FilterDecision::Ignore;
    }
    let s = msg.content.as_str();
    if !has_marker(s) {
        return FilterDecision::Ignore;
    }
    let n = s.unicode_len();
    let rest = s.substring_char(4, n);
    let q = trim_str(rest);
    if q.as_str().unicode_len() == 0 {
        FilterDecision::Ignore
    } else {
        FilterDecision::Process(q)
    }
}

} // verus!

//! The handler's decisions, parted from the outside work around them: which
//! incoming messages lead to a model call, and what is sent back for a
//! model result. The surrounding program listens, invokes the model and
//! posts the reply; every decision in between stands here.

use vstd::prelude::*;
use crate::filter::FilterDecision;
use crate::filter::admits;
use crate::filter::filter_message;
use crate::filter::marker;
use crate::filter::question_of;
use crate::filter::starts_with_marker;
use crate::message::IncomingMessage;
use crate::qa::AnswerResult;
use crate::qa::QuestionRequest;
use crate::qa::extract_answer;
use crate::reply::format_reply;
use crate::reply::reply_of;
use crate::text::is_ws;
use crate::text::lemma_trim_all_ws_empty;

verus! {

/// The question kept while the model call is in flight: where the reply
/// must go, and what is asked.
pub struct PendingQuestion {
    pub channel_id: u64,
    pub request: QuestionRequest,
}

/// What the handler does with one incoming message.
pub enum MessagePlan {
    /// Nothing follows: no model call and no outbound send.
    Ignore,
    /// The carried request is put to the model; the model's result then
    /// goes through `plan_reply`.
    Invoke(PendingQuestion),
}

/// One outbound send: the reply content destined for a channel.
pub struct Outbound {
    pub channel_id: u64,
    pub content: String,
}

/// The receiving half of the handler: decides whether `msg` warrants a
/// model call and builds the request, answering against `context`. The
/// model is invoked exactly for admitted messages, with the question the
/// message carries, and the reply is owed to the message's own channel.
pub fn plan_message(msg: &IncomingMessage, context: &String) -> (r: MessagePlan)
    ensures
        (r is Invoke) <==> admits(*msg),
        r matches MessagePlan::Invoke(p) ==> {
            &&& p.channel_id == msg.channel_id
            &&& p.request.question@ == question_of(msg.content@)
            &&& p.request.context@ == context@
            &&& p.request.title is None
        },
{
    match filter_message(msg) {
        FilterDecision::Ignore => MessagePlan::Ignore,
        FilterDecision::Process(question) => MessagePlan::Invoke(
            PendingQuestion {
                channel_id: msg.channel_id,
                request: QuestionRequest { question, context: context.clone(), title: None },
            },
        ),
    }
}

/// The replying half of the handler: given the model's result batch for a
/// pending question, the one send that follows, or nothing when the batch
/// is empty. An empty batch is the recoverable "no answer found" case: the
/// handler completes without sending and without failing.
pub fn plan_reply(pending: &PendingQuestion, results: &Vec<AnswerResult>) -> (r: Option<
    Outbound,
>)
    ensures
        (r is Some) <==> results@.len() > 0,
        r matches Some(o) ==> {
            &&& o.channel_id == pending.channel_id
            &&& o.content@ == reply_of(pending.request.question@, results@.last().answer@)
        },
{
    match extract_answer(results) {
        None => None,
        Some(answer) => Some(
            Outbound {
                channel_id: pending.channel_id,
                content: format_reply(&pending.request.question, &answer),
            },
        ),
    }
}

/// A bot-authored message is never admitted: by `plan_message`'s contract
/// its plan is `Ignore`, so no model call and no outbound send follow.
pub proof fn lemma_bot_author_not_admitted(msg: IncomingMessage)
    requires
        msg.author_bot,
    ensures
        !admits(msg),
{
}

/// A message carrying membership metadata is never admitted: by
/// `plan_message`'s contract its plan is `Ignore`, so no model call and no
/// outbound send follow.
pub proof fn lemma_membership_not_admitted(msg: IncomingMessage)
    requires
        msg.membership is Some,
    ensures
        !admits(msg),
{
}

/// A message whose text does not start with the command marker is never
/// admitted: by `plan_message`'s contract its plan is `Ignore`, so no
/// model call and no outbound send follow.
pub proof fn lemma_no_marker_not_admitted(msg: IncomingMessage)
    requires
        !starts_with_marker(msg.content@),
    ensures
        !admits(msg),
{
}

/// A message that is the command marker followed by whitespace alone is
/// never admitted: no question remains once the marker and the
/// surrounding whitespace are stripped, so no model call and no outbound
/// send follow.
pub proof fn lemma_blank_question_not_admitted(msg: IncomingMessage)
    requires
        msg.content@.len() >= marker().len(),
        forall|k: int|
            marker().len() <= k < msg.content@.len() ==> is_ws(msg.content@[k]),
    ensures
        !admits(msg),
{
    let rest = msg.content@.subrange(marker().len() as int, msg.content@.len() as int);
    assert forall|k: int| 0 <= k < rest.len() implies is_ws(rest[k]) by {
        assert(rest[k] == msg.content@[k + marker().len()]);
    }
    lemma_trim_all_ws_empty(rest);
}

} // verus!

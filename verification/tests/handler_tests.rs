use askbot::handler::MessagePlan;
use askbot::handler::PendingQuestion;
use askbot::handler::plan_message;
use askbot::handler::plan_reply;
use askbot::message::IncomingMessage;
use askbot::qa::AnswerResult;
use askbot::qa::QuestionRequest;
use askbot::qa::default_context;

fn message(content: &str) -> IncomingMessage {
    IncomingMessage {
        author_bot: false,
        membership: None,
        channel_id: 42,
        content: String::from(content),
    }
}

fn pending(question: &str) -> PendingQuestion {
    PendingQuestion {
        channel_id: 42,
        request: QuestionRequest {
            question: String::from(question),
            context: default_context(),
            title: None,
        },
    }
}

#[test]
fn bot_author_is_ignored() {
    let mut msg = message("!ask What is the capital of France?");
    msg.author_bot = true;
    let context = default_context();
    assert!(matches!(plan_message(&msg, &context), MessagePlan::Ignore));
}

#[test]
fn membership_metadata_is_ignored() {
    let mut msg = message("!ask What is the capital of France?");
    msg.membership = Some(String::from("member"));
    let context = default_context();
    assert!(matches!(plan_message(&msg, &context), MessagePlan::Ignore));
}

#[test]
fn missing_marker_is_ignored() {
    let context = default_context();
    for content in ["", "hello", "ask something", "!asq typo", "? !ask late"] {
        let msg = message(content);
        assert!(matches!(plan_message(&msg, &context), MessagePlan::Ignore));
    }
}

#[test]
fn marker_with_only_whitespace_is_ignored() {
    let context = default_context();
    for content in ["!ask", "!ask ", "!ask    ", "!ask \t\r\n ", "!ask\u{a0}", "!ask\u{a0}\u{2003}\u{3000}"] {
        let msg = message(content);
        assert!(matches!(plan_message(&msg, &context), MessagePlan::Ignore));
    }
}

#[test]
fn admitted_question_invokes_the_model() {
    let msg = message("!ask What is the capital of France?");
    let context = default_context();
    match plan_message(&msg, &context) {
        MessagePlan::Invoke(p) => {
            assert_eq!(p.channel_id, 42);
            assert_eq!(p.request.question, "What is the capital of France?");
            assert_eq!(p.request.context, "Provide your context here.");
            assert!(p.request.title.is_none());
        }
        MessagePlan::Ignore => panic!("admitted message was ignored"),
    }
}

#[test]
fn reply_for_answered_question() {
    let p = pending("What is the capital of France?");
    let results = vec![AnswerResult { answer: String::from("Paris") }];
    match plan_reply(&p, &results) {
        Some(outbound) => {
            assert_eq!(outbound.channel_id, 42);
            assert_eq!(
                outbound.content,
                "You asked: 'What is the capital of France?'\nQuestion Answer: Paris\n"
            );
        }
        None => panic!("non-empty result batch sent no reply"),
    }
}

#[test]
fn empty_result_batch_sends_nothing() {
    let p = pending("What is the capital of France?");
    let results: Vec<AnswerResult> = Vec::new();
    assert!(plan_reply(&p, &results).is_none());
}

#[test]
fn question_is_trimmed_of_unicode_whitespace() {
    let msg = message("!ask\u{a0}q\u{2028}\u{a0}");
    let context = default_context();
    match plan_message(&msg, &context) {
        MessagePlan::Invoke(p) => assert_eq!(p.request.question, "q"),
        MessagePlan::Ignore => panic!("admitted message was ignored"),
    }
}

#[test]
fn marker_without_space_still_carries_question() {
    let msg = message("!askWhat?");
    let context = default_context();
    match plan_message(&msg, &context) {
        MessagePlan::Invoke(p) => assert_eq!(p.request.question, "What?"),
        MessagePlan::Ignore => panic!("marker-prefixed message was ignored"),
    }
}

//! The input handed to the question-answering model and the answers it
//! returns, as plain values.

use vstd::prelude::*;

verus! {

/// One question put to the question-answering model, together with the
/// context it should be answered from and an optional title.
pub struct QuestionRequest {
    pub question: String,
    pub context: String,
    pub title: Option<String>,
}

/// One answer as the model returns it: the extracted answer text. The
/// model also reports a confidence score and span offsets; the handler
/// does not read them, so they are not carried here.
pub struct AnswerResult {
    pub answer: String,
}

/// The answer taken from a result batch: the last element's text, or
/// nothing when the batch is empty. An empty batch is a legitimate
/// outcome for degenerate input and must not be treated as a fault.
pub fn extract_answer(results: &Vec<AnswerResult>) -> (r: Option<String>)
    ensures
        (r is Some) <==> results@.len() > 0,
        r matches Some(a) ==> a@ == results@.last().answer@,
{
    if results.len() == 0 {
        None
    } else {
        Some(results[results.len() - 1].answer.clone())
    }
}

/// The fixed placeholder context that the handler answers against when no
/// better context source is configured.
pub fn default_context() -> (r: String)
    ensures
        r@ == "Provide your context here."@,
{
    String::from_str("Provide your context here.")
}

} // verus!

//! Building the recognition response from what the recognizer produced.

use vstd::prelude::*;

verus! {

/// A recognized word with its position in the audio, in milliseconds.
#[derive(Debug, Clone, PartialEq, Eq, Default)]
pub struct Word {
    pub word: String,
    pub start_ms: i64,
    pub end_ms: i64,
}

/// A recognized phrase and its words.
#[derive(Debug, Clone, PartialEq, Eq, Default)]
pub struct Phrase {
    pub text: String,
    pub words: Vec<Word>,
}

/// The answer to a recognition request.
#[derive(Debug, Clone, PartialEq, Eq, Default)]
pub struct RecognizeResponse {
    pub phrases: Vec<Phrase>,
}

/// One transcription hypothesis of the recognizer.
#[derive(Debug, Clone, PartialEq, Eq, Default)]
pub struct Alternative {
    pub text: String,
    pub words: Vec<Word>,
}

/// The final result of the recognizer: a single transcription, or a list of
/// alternatives, best first.
#[derive(Debug, Clone, PartialEq, Eq)]
pub enum CompleteResult {
    Single(Alternative),
    Multiple(Vec<Alternative>),
}

/// `response` holds no phrase when `text` is empty, and otherwise exactly
/// one phrase made of `text` and `words`.
pub open spec fn is_response_for(response: RecognizeResponse, text: Seq<char>, words: Seq<Word>) -> bool {
    if text.len() == 0 {
        response.phrases@.len() == 0
    } else {
        &&& response.phrases@.len() == 1
        &&& response.phrases@[0].text@ == text
        &&& response.phrases@[0].words@ == words
    }
}

/// A response for a non-empty text reports that text in a single phrase
/// with every word, in order; a response for an empty text reports nothing.
pub proof fn lemma_response_keeps_text_and_every_word(
    response: RecognizeResponse,
    text: Seq<char>,
    words: Seq<Word>,
    i: int,
)
    requires
        is_response_for(response, text, words),
    ensures
        text.len() == 0 ==> response.phrases@.len() == 0,
        text.len() > 0 ==> response.phrases@.len() == 1 && response.phrases@[0].text@ == text
            && response.phrases@[0].words@.len() == words.len(),
        text.len() > 0 && 0 <= i < words.len() ==> response.phrases@[0].words@[i] == words[i],
{
}

/// The response that reports a transcription and its words.
pub fn build_response(text: &str, words: Vec<Word>) -> (response: RecognizeResponse)
    ensures
        is_response_for(response, text@, words@),
        text@.len() == 0 ==> response.phrases@.len() == 0,
        text@.len() > 0 ==> {
            &&& response.phrases@.len() == 1
            &&& response.phrases@[0].text@ == text@
            &&& response.phrases@[0].words@.len() == words@.len()
            &&& forall|i: int|
                0 <= i < words@.len() ==> #[trigger] response.phrases@[0].words@[i] == words@[i]
        },
{
    if text.is_empty() {
        return RecognizeResponse { phrases: Vec::new() };
    }
    let mut phrases: Vec<Phrase> = Vec::new();
    phrases.push(Phrase { text: text.to_string(), words });
    RecognizeResponse { phrases }
}

/// The response for a final result: its single transcription, or its first
/// alternative, or no phrase when there is no alternative.
pub fn process(complete_result: CompleteResult) -> (response: RecognizeResponse)
    ensures
        match complete_result {
            CompleteResult::Single(alternative) => is_response_for(
                response,
                alternative.text@,
                alternative.words@,
            ),
            CompleteResult::Multiple(alternatives) => if alternatives@.len() > 0 {
                is_response_for(response, alternatives@[0].text@, alternatives@[0].words@)
            } else {
                response.phrases@.len() == 0
            },
        },
        ({
            let chosen = match complete_result {
                CompleteResult::Single(alternative) => Some(alternative),
                CompleteResult::Multiple(alternatives) => if alternatives@.len() > 0 {
                    Some(alternatives@[0])
                } else {
                    None
                },
            };
            match chosen {
                Some(alternative) => if alternative.text@.len() == 0 {
                    response.phrases@.len() == 0
                } else {
                    &&& response.phrases@.len() == 1
                    &&& response.phrases@[0].text@ == alternative.text@
                    &&& response.phrases@[0].words@ == alternative.words@
                },
                None => response.phrases@.len() == 0,
            }
        }),
{
    match complete_result {
        CompleteResult::Single(alternative) => build_response(
            alternative.text.as_str(),
            alternative.words,
        ),
        CompleteResult::Multiple(alternatives) => {
            let mut alternatives = alternatives;
            if alternatives.len() > 0 {
                let first = alternatives.remove(0);
                build_response(first.text.as_str(), first.words)
            } else {
                RecognizeResponse { phrases: Vec::new() }
            }
        },
    }
}

} // verus!

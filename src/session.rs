use vstd::prelude::*;

use crate::json::{field_view, json_str_field_of, read_str_field, Field};
use crate::word::{resolved_answer, Word, AUDIO_PREFIX_LEN};

verus! {

/// Outcome of submitting one answer.
#[derive(Debug, PartialEq, Eq, Structural)]
pub enum AnswerResult {
    Good,
    Bad,
    Error,
}

/// A logged-in practice session: the credentials, the service's id for the
/// learner, and the corrections gathered so far (append-only, oldest first).
pub struct Insta {
    pub words_list: Vec<Word>,
    pub username: String,
    pub password: String,
    pub child_id: String,
}

/// `r` is what the next-word reply `reply` calls for: a fresh word with an
/// empty answer when it names an id, "finished" when the practice set is
/// exhausted, "malformed response" when it is not JSON.
pub open spec fn next_word_outcome(
    reply: Option<Option<Seq<char>>>,
    r: Result<Word, &'static str>,
) -> bool {
    match reply {
        Some(Some(id)) => r matches Ok(w) && w.id@ == id && w.answer@ == Seq::<char>::empty(),
        Some(None) => r matches Err(e) && e@ == "finished"@,
        None => r matches Err(e) && e@ == "malformed response"@,
    }
}

/// The session after an answer was checked against `answershow`, the
/// service's canonical answer, and the result reported.
pub open spec fn answer_outcome(
    pre: Insta,
    post: Insta,
    word: Word,
    answershow: Option<Seq<char>>,
    r: AnswerResult,
) -> bool {
    &&& post.username == pre.username
    &&& post.password == pre.password
    &&& post.child_id == pre.child_id
    &&& match answershow {
        None => r == AnswerResult::Error && post.words_list@ == pre.words_list@,
        Some(s) => if s == word.answer@ {
            r == AnswerResult::Good && post.words_list@ == pre.words_list@
        } else {
            &&& r == AnswerResult::Bad
            &&& post.words_list@.len() == pre.words_list@.len() + 1
            &&& post.words_list@.drop_last() =~= pre.words_list@
            &&& post.words_list@.last().id == word.id
            &&& post.words_list@.last().answer@ == s
        },
    }
}

/// A next-word reply ends the practice set, with the error "finished",
/// exactly when it is JSON without a string member `id`.
pub proof fn lemma_finished_iff_no_id(reply: Option<Option<Seq<char>>>, r: Result<Word, &'static str>)
    requires
        next_word_outcome(reply, r),
    ensures
        (r matches Err(e) && e@ == "finished"@) <==> reply == Some(None::<Seq<char>>),
{
    reveal_strlit("finished");
    reveal_strlit("malformed response");
    assert("finished"@.len() != "malformed response"@.len());
}

impl Insta {
    /// Turns the `id` member of a next-word reply into a fresh word.
    pub fn word_from_field(field: Field) -> (r: Result<Word, &'static str>)
        ensures
            next_word_outcome(field_view(field), r),
    {
        match field {
            Field::Text(id) => Ok(Word::new(id, String::new())),
            Field::Missing => Err("finished"),
            Field::Malformed => Err("malformed response"),
        }
    }

    /// Reads the reply of the next-word endpoint.
    pub fn generate_word(&self, response: &str) -> (r: Result<Word, &'static str>)
        ensures
            next_word_outcome(json_str_field_of(response@, "id"@), r),
    {
        Self::word_from_field(read_str_field(response, "id"))
    }

    /// Sets `word`'s answer from the reply of the audio-clip endpoint, whose
    /// `url` member names the clip; a correction saved for the word wins.
    /// Fails, leaving `word` as it was, when the reply has no usable URL.
    pub fn generate_answer(&self, word: &mut Word, response: &str) -> (r: Result<(), &'static str>)
        ensures
            match json_str_field_of(response@, "url"@) {
                Some(Some(url)) if url.len() >= AUDIO_PREFIX_LEN => {
                    &&& r is Ok
                    &&& final(word).id == old(word).id
                    &&& final(word).answer@ == resolved_answer(old(word).id@, url, self.words_list@)
                },
                _ => r is Err && *final(word) == *old(word),
            },
    {
        match read_str_field(response, "url") {
            Field::Text(url) => {
                if url.as_str().unicode_len() >= AUDIO_PREFIX_LEN {
                    word.parse(url.as_str(), &self.words_list);
                    Ok(())
                } else {
                    Err("malformed response")
                }
            },
            _ => Err("malformed response"),
        }
    }

    /// Records the service's verdict on `word`: with no canonical answer the
    /// result is `Error`; a matching one gives `Good`; a different one gives
    /// `Bad` and appends the word with the canonical answer to the corrections.
    pub fn record_answer(&mut self, word: &Word, answershow: Option<String>) -> (r: AnswerResult)
        ensures
            answer_outcome(*old(self), *final(self), *word, crate::word::text_of(answershow), r),
    {
        match answershow {
            None => AnswerResult::Error,
            Some(s) => {
                if s == word.answer {
                    AnswerResult::Good
                } else {
                    let corrected = Word::new(word.id.clone(), s);
                    self.words_list.push(corrected);
                    AnswerResult::Bad
                }
            },
        }
    }

    /// Reads the reply of the answer-submission endpoint, whose `answershow`
    /// member is the service's canonical answer, and records the verdict.
    /// A reply that is not JSON counts as one without that member.
    pub fn check_answer(&mut self, word: &Word, response: &str) -> (r: AnswerResult)
        ensures
            answer_outcome(
                *old(self),
                *final(self),
                *word,
                match json_str_field_of(response@, "answershow"@) {
                    Some(Some(s)) => Some(s),
                    _ => None,
                },
                r,
            ),
    {
        let answershow = match read_str_field(response, "answershow") {
            Field::Text(s) => Some(s),
            _ => None,
        };
        self.record_answer(word, answershow)
    }
}

} // verus!

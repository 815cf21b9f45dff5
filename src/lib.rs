//! Client-side logic of a bot for a vocabulary-practice web service: the
//! session state, the derivation of an answer from an audio-clip URL, the
//! corrections that the service hands back, and the reading of its replies.
//! Sending the requests is left to the caller.

mod builder;
mod json;
mod session;
mod text;
mod word;

pub use builder::{InstaBuilder, InstaError, CHILD_ID_OFFSET};
pub use json::{field_view, json_str_field_of, Field};
pub use session::{answer_outcome, lemma_finished_iff_no_id, next_word_outcome, AnswerResult, Insta};
pub use text::{contains_text, has_substring, occurs_at};
pub use word::{answer_from_url, lemma_answer_strips_prefix_and_suffix, lemma_saved_answer_overrides_url, audio_suffix, correction_for, resolved_answer, text_of, Word, AUDIO_PREFIX_LEN};

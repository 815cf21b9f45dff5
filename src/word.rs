use vstd::prelude::*;
use vstd::string::*;

verus! {

/// Number of characters of an audio-clip URL that come before the file name.
pub const AUDIO_PREFIX_LEN: usize = 28;

/// The file extension that ends an audio-clip URL.
pub open spec fn audio_suffix() -> Seq<char> {
    seq!['.', 'm', 'p', '3']
}

/// The answer a URL implies: the URL without its path prefix and without a
/// trailing ".mp3".
pub open spec fn answer_from_url(url: Seq<char>) -> Seq<char> {
    let rest = url.skip(AUDIO_PREFIX_LEN as int);
    if rest.len() >= 4 && rest.skip(rest.len() - 4) == audio_suffix() {
        rest.take(rest.len() - 4)
    } else {
        rest
    }
}

/// One challenge of a practice round: the service's id for it and the answer
/// currently believed to be right.
#[derive(Clone, Debug)]
pub struct Word {
    pub id: String,
    pub answer: String,
}

/// The characters of an optional string.
pub open spec fn text_of(o: Option<String>) -> Option<Seq<char>> {
    match o {
        Some(s) => Some(s@),
        None => None,
    }
}

/// The answer recorded for `id` in `saved`; the latest entry wins.
pub open spec fn correction_for(id: Seq<char>, saved: Seq<Word>) -> Option<Seq<char>>
    decreases saved.len(),
{
    if saved.len() == 0 {
        None
    } else if saved.last().id@ == id {
        Some(saved.last().answer@)
    } else {
        correction_for(id, saved.drop_last())
    }
}

/// The answer for `id` given the audio-clip URL and the corrections so far.
pub open spec fn resolved_answer(id: Seq<char>, url: Seq<char>, saved: Seq<Word>) -> Seq<char> {
    match correction_for(id, saved) {
        Some(a) => a,
        None => answer_from_url(url),
    }
}

/// A URL made of the fixed-length path prefix, a name and ".mp3" implies
/// exactly that name: the prefix and the suffix go, nothing else.
pub proof fn lemma_answer_strips_prefix_and_suffix(prefix: Seq<char>, name: Seq<char>)
    requires
        prefix.len() == AUDIO_PREFIX_LEN,
    ensures
        answer_from_url(prefix + name + audio_suffix()) == name,
{
    let url = prefix + name + audio_suffix();
    let rest = url.skip(AUDIO_PREFIX_LEN as int);
    assert(rest =~= name + audio_suffix());
    assert(rest.skip(rest.len() - 4) =~= audio_suffix());
    assert(rest.take(rest.len() - 4) =~= name);
}

/// Once some saved correction carries `id`, the answer for `id` is the saved
/// answer of the latest such correction, whatever the URL implies.
pub proof fn lemma_saved_answer_overrides_url(id: Seq<char>, url: Seq<char>, saved: Seq<Word>, i: int)
    requires
        0 <= i < saved.len(),
        saved[i].id@ == id,
    ensures
        exists|j: int|
            #![trigger saved[j]]
            i <= j < saved.len() && saved[j].id@ == id && resolved_answer(id, url, saved)
                == saved[j].answer@ && forall|k: int| j < k < saved.len() ==> saved[k].id@ != id,
    decreases saved.len(),
{
    let n = saved.len() - 1;
    if saved[n].id@ == id {
        assert(resolved_answer(id, url, saved) == saved[n].answer@);
    } else {
        let init = saved.drop_last();
        lemma_saved_answer_overrides_url(id, url, init, i);
        let j = choose|j: int|
            #![trigger init[j]]
            i <= j < init.len() && init[j].id@ == id && resolved_answer(id, url, init)
                == init[j].answer@ && forall|k: int| j < k < init.len() ==> init[k].id@ != id;
        assert(saved[j] == init[j]);
        assert(forall|k: int| j < k < saved.len() ==> saved[k].id@ != id) by {
            assert forall|k: int| j < k < saved.len() implies saved[k].id@ != id by {
                if k < n {
                    assert(saved[k] == init[k]);
                }
            }
        }
    }
}

impl Word {
    pub fn new(id: String, answer: String) -> (r: Self)
        ensures
            r.id == id,
            r.answer == answer,
    {
        Self { id, answer }
    }

    /// Sets the answer from an audio-clip URL, unless `words_saved` holds a
    /// correction for this word's id, in which case the latest one is taken.
    pub fn parse(&mut self, raw_url: &str, words_saved: &Vec<Self>)
        requires
            raw_url@.len() >= AUDIO_PREFIX_LEN,
        ensures
            final(self).id == old(self).id,
            final(self).answer@ == resolved_answer(old(self).id@, raw_url@, words_saved@),
    {
        let found = latest_correction(&self.id, words_saved);
        match found {
            Some(a) => {
                self.answer = a;
            },
            None => {
                self.answer = strip_audio_url(raw_url);
            },
        }
    }
}

/// The file-name part of an audio-clip URL, without a trailing ".mp3".
pub(crate) fn strip_audio_url(raw_url: &str) -> (r: String)
    requires
        raw_url@.len() >= AUDIO_PREFIX_LEN,
    ensures
        r@ == answer_from_url(raw_url@),
{
    let n = raw_url.unicode_len();
    let rest = raw_url.substring_char(AUDIO_PREFIX_LEN, n);
    let m = n - AUDIO_PREFIX_LEN;
    if m >= 4 && rest.get_char(m - 4) == '.' && rest.get_char(m - 3) == 'm'
        && rest.get_char(m - 2) == 'p' && rest.get_char(m - 1) == '3' {
        assert(rest@.skip(m - 4) =~= audio_suffix());
        rest.substring_char(0, m - 4).to_owned()
    } else {
        assert(m >= 4 ==> rest@.skip(m - 4)[0] == rest@[m - 4]);
        assert(m >= 4 ==> rest@.skip(m - 4)[1] == rest@[m - 3]);
        assert(m >= 4 ==> rest@.skip(m - 4)[2] == rest@[m - 2]);
        assert(m >= 4 ==> rest@.skip(m - 4)[3] == rest@[m - 1]);
        rest.to_owned()
    }
}

/// The answer of the last entry of `saved` whose id is `id`.
pub(crate) fn latest_correction(id: &String, saved: &Vec<Word>) -> (r: Option<String>)
    ensures
        text_of(r) == correction_for(id@, saved@),
{
    let mut found: Option<String> = None;
    let mut i: usize = 0;
    while i < saved.len()
        invariant
            i <= saved@.len(),
            text_of(found) == correction_for(id@, saved@.take(i as int)),
        decreases saved@.len() - i,
    {
        assert(saved@.take(i + 1).drop_last() =~= saved@.take(i as int));
        if saved[i].id == *id {
            found = Some(saved[i].answer.clone());
        }
        i = i + 1;
    }
    assert(saved@.take(i as int) =~= saved@);
    found
}

} // verus!

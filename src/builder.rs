use vstd::prelude::*;
use vstd::string::*;

use crate::session::Insta;
use crate::text::{contains_text, has_substring};

verus! {

/// Number of characters of the dispatcher's final URL that come before the
/// learner's id.
pub const CHILD_ID_OFFSET: usize = 59;

/// Why a session could not be set up.
#[derive(Debug, PartialEq, Eq, Structural)]
pub enum InstaError {
    /// The service sent the login to its "session expired" page.
    WrongCreds,
}

/// Settings gathered before a session starts.
pub struct InstaBuilder {
    pub username: String,
    pub password: String,
    pub child_id: String,
}

impl InstaBuilder {
    /// A builder with empty credentials and no learner id.
    pub fn new() -> (r: Self)
        ensures
            r.username@ == Seq::<char>::empty(),
            r.password@ == Seq::<char>::empty(),
            r.child_id@ == Seq::<char>::empty(),
    {
        InstaBuilder { username: String::new(), password: String::new(), child_id: String::new() }
    }

    /// Sets the username and the password.
    pub fn credentials(self, username: &str, password: &str) -> (r: Self)
        ensures
            r.username@ == username@,
            r.password@ == password@,
            r.child_id == self.child_id,
    {
        InstaBuilder {
            username: username.to_owned(),
            password: password.to_owned(),
            child_id: self.child_id,
        }
    }

    /// Takes the learner's id from the URL that the dispatcher redirected to:
    /// a URL that mentions "expired" means the login failed; otherwise the id
    /// is what follows the URL's fixed-length prefix.
    pub fn get_child_id(self, final_url: &str) -> (r: Result<Self, InstaError>)
        requires
            has_substring(final_url@, "expired"@) || final_url@.len() >= CHILD_ID_OFFSET,
        ensures
            has_substring(final_url@, "expired"@) ==> r == Err::<Self, InstaError>(InstaError::WrongCreds),
            !has_substring(final_url@, "expired"@) ==> (r matches Ok(b) && {
                &&& b.child_id@ == final_url@.skip(CHILD_ID_OFFSET as int)
                &&& b.username == self.username
                &&& b.password == self.password
            }),
    {
        if contains_text(final_url, "expired") {
            return Err(InstaError::WrongCreds);
        }
        let n = final_url.unicode_len();
        let id = final_url.substring_char(CHILD_ID_OFFSET, n).to_owned();
        Ok(InstaBuilder { username: self.username, password: self.password, child_id: id })
    }

    /// The session, with no corrections yet.
    pub fn build(self) -> (r: Insta)
        ensures
            r.words_list@.len() == 0,
            r.username == self.username,
            r.password == self.password,
            r.child_id == self.child_id,
    {
        Insta {
            words_list: Vec::new(),
            username: self.username,
            password: self.password,
            child_id: self.child_id,
        }
    }
}

} // verus!

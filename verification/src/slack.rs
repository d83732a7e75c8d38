//! What a request to update a Slack status carries.

use vstd::prelude::*;
use vstd::string::StringExecFns;

verus! {

/// The value of the `Authorization` header for `token`: the word `Bearer`, a
/// space, and the token.
pub open spec fn bearer(token: Seq<char>) -> Seq<char> {
    "Bearer "@ + token
}

/// The fields of the profile that a status update sets: `status_emoji` with
/// the emoji and `status_text` with the text.
pub open spec fn profile_of(emoji: Seq<char>, text: Seq<char>) -> Seq<(Seq<char>, Seq<char>)> {
    seq![("status_emoji"@, emoji), ("status_text"@, text)]
}

/// A request on behalf of the owner of one token.
pub struct SlackRequest {
    token: String,
}

impl View for SlackRequest {
    type V = Seq<char>;

    /// The value of the `Authorization` header that the request is sent with.
    closed spec fn view(&self) -> Seq<char> {
        self.token@
    }
}

impl SlackRequest {
    /// The request that authorizes itself with `token`.
    pub fn new(token: &str) -> (request: Self)
        ensures
            request@ == bearer(token@),
    {
        let mut header = String::from_str("Bearer ");
        header.append(token);
        Self { token: header }
    }

    /// The value of the `Authorization` header.
    pub fn authorization(&self) -> (header: &str)
        ensures
            header@ == self@,
    {
        self.token.as_str()
    }

    /// The fields of the profile that a status update sets, each with its
    /// name: the emoji and the text of the status.
    pub fn profile(emoji: &str, text: &str) -> (fields: Vec<(String, String)>)
        ensures
            fields.deep_view() == profile_of(emoji@, text@),
    {
        let mut fields: Vec<(String, String)> = Vec::new();
        fields.push((String::from_str("status_emoji"), String::from_str(emoji)));
        fields.push((String::from_str("status_text"), String::from_str(text)));
        proof {
            assert(fields.deep_view() =~= profile_of(emoji@, text@));
        }
        fields
    }
}

} // verus!

//! The domain entities as the core logic consumes them: users, contexts,
//! quotes and comments, with timestamps carried as Unix epoch seconds. The
//! datastore that produces them is an external collaborator; only the fields
//! and derivations the core reads are modelled here.
use vstd::prelude::*;

verus! {

/// A registered user. Only `id` (for session claims) and the name fields (for
/// display) are consumed by the core.
#[derive(Clone, Debug, PartialEq, Eq)]
pub struct User {
    pub id: i32,
    pub email_address: Option<String>,
    pub username: Option<String>,
    pub fullname: String,
    pub openid: Option<String>,
}

impl User {
    /// What a user's name displays as: the username when one is set, else the
    /// full name.
    pub open spec fn spec_display_name(self) -> Seq<char> {
        match self.username {
            Some(u) => u@,
            None => self.fullname@,
        }
    }

    pub fn username_or_fullname(&self) -> (r: &str)
        ensures
            r@ == self.spec_display_name(),
    {
        match &self.username {
            Some(username) => username.as_str(),
            None => self.fullname.as_str(),
        }
    }
}

/// A named grouping of quotes and users.
#[derive(Clone, Debug, PartialEq, Eq)]
pub struct Context {
    pub id: i32,
    pub name: String,
    pub description: String,
    pub quotes_count: i64,
}

/// One quote, attributed to a quotee and recorded by a quoter within a
/// context. Timestamps are Unix epoch seconds.
#[derive(Clone, Debug, PartialEq, Eq)]
pub struct Quote {
    pub id: i32,
    pub quote_text: String,
    pub context_id: i32,
    pub quoter_id: i32,
    pub quotee_id: i32,
    pub created_at: i64,
    pub updated_at: i64,
    pub hidden: bool,
}

/// One threaded comment on a quote. Timestamps are Unix epoch seconds.
#[derive(Clone, Debug, PartialEq, Eq)]
pub struct Comment {
    pub id: i32,
    pub quote_id: i32,
    pub user_id: i32,
    pub body: String,
    pub created_at: i64,
    pub updated_at: i64,
}

/// A quote joined with the people and context it references, as the listing
/// screens display it.
#[derive(Clone, Debug, PartialEq, Eq)]
pub struct QuoteWithUsers {
    pub quote: Quote,
    pub quoter: User,
    pub quotee: User,
    pub context: Context,
    pub comments_count: i64,
}

/// A comment joined with the quote text and people it references.
#[derive(Clone, Debug, PartialEq, Eq)]
pub struct CommentWithQuote {
    pub comment: Comment,
    pub quote_text: String,
    pub user: User,
    pub context: Context,
}

/// A comment joined with the quote text, its author and the quotee.
#[derive(Clone, Debug, PartialEq, Eq)]
pub struct CommentWithQuotee {
    pub comment: Comment,
    pub quote_text: String,
    pub user: User,
    pub quotee: User,
}

} // verus!

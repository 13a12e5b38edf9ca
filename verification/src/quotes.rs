//! The quote entry form as the new/edit screens prefill it.
use crate::model::{Context, QuoteWithUsers};
use vstd::prelude::*;

verus! {

/// The fields of the quote entry form, either blank or prefilled from an
/// existing quote.
#[derive(Clone, Debug)]
pub struct QuoteForm {
    pub error_messages: String,
    pub possible_quotee_matches: Option<Vec<String>>,
    pub quotee: String,
    pub context_name: String,
    pub context: Option<Context>,
    pub quote_text: String,
}

impl Default for QuoteForm {
    /// A blank form.
    fn default() -> (r: QuoteForm)
        ensures
            r.error_messages@ == Seq::<char>::empty(),
            r.possible_quotee_matches is None,
            r.quotee@ == Seq::<char>::empty(),
            r.context_name@ == Seq::<char>::empty(),
            r.context is None,
            r.quote_text@ == Seq::<char>::empty(),
    {
        QuoteForm {
            error_messages: String::new(),
            possible_quotee_matches: None,
            quotee: String::new(),
            context_name: String::new(),
            context: None,
            quote_text: String::new(),
        }
    }
}

impl From<QuoteWithUsers> for QuoteForm {
    /// The form prefilled to edit an existing quote.
    fn from(quote: QuoteWithUsers) -> (r: QuoteForm)
        ensures
            r.error_messages@ == Seq::<char>::empty(),
            r.possible_quotee_matches is None,
            r.quotee == quote.quotee.fullname,
            r.context_name@ == quote.context.name@,
            r.context == Some(quote.context),
            r.quote_text == quote.quote.quote_text,
    {
        let context_name = quote.context.name.clone();
        QuoteForm {
            error_messages: String::new(),
            possible_quotee_matches: None,
            quotee: quote.quotee.fullname,
            context_name,
            context: Some(quote.context),
            quote_text: quote.quote.quote_text,
        }
    }
}

impl vstd::std_specs::convert::FromSpecImpl<QuoteWithUsers> for QuoteForm {
    /// The exact form value is pinned by the ensures of `from` above, not by
    /// a spec-level construction: a spec cannot name a fresh empty `String`.
    open spec fn obeys_from_spec() -> bool {
        false
    }

    open spec fn from_spec(v: QuoteWithUsers) -> QuoteForm {
        arbitrary()
    }
}

} // verus!

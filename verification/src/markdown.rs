//! Which inline markup the Markdown renderer may keep. The rendering itself
//! is an external collaborator's job; this type is the policy handed to it.
use vstd::prelude::*;

verus! {

/// The inline tags a rendering context allows: quote bodies keep emphasis but
/// drop links, comment bodies keep everything.
#[derive(Clone, Copy, Debug, PartialEq, Eq, Structural)]
pub struct AllowedTags {
    pub emphasis: bool,
    pub strong: bool,
    pub link: bool,
}

impl AllowedTags {
    /// Every supported tag allowed.
    pub fn all() -> (r: AllowedTags)
        ensures
            r.emphasis,
            r.strong,
            r.link,
    {
        AllowedTags { emphasis: true, strong: true, link: true }
    }

    /// Emphasis only: what quote text may carry.
    pub fn emphasis_only() -> (r: AllowedTags)
        ensures
            r.emphasis,
            r.strong,
            !r.link,
    {
        AllowedTags { emphasis: true, strong: true, link: false }
    }
}

} // verus!

//! A blog post workflow where each stage is its own type, so that the
//! compiler already rules out reading a draft: content is only readable
//! once a post has been reviewed and approved.

use vstd::prelude::*;
use vstd::string::*;

verus! {

/// An approved, published post; the only stage whose content is readable.
pub struct PostRust {
    content: String,
}

/// A post still being written.
pub struct DraftPost {
    content: String,
}

/// A post waiting for review.
pub struct PendingReviewPost {
    content: String,
}

impl PostRust {
    /// Starting a post yields a draft with empty content.
    pub fn new() -> (r: DraftPost)
        ensures
            r.spec_content().len() == 0,
    {
        DraftPost { content: String::new() }
    }

    /// The published content, for contracts.
    pub closed spec fn spec_content(&self) -> Seq<char> {
        self.content@
    }

    /// Reads the published content.
    pub fn content(&self) -> (r: &str)
        ensures
            r@ == self.spec_content(),
    {
        self.content.as_str()
    }
}

impl DraftPost {
    /// The draft text so far, for contracts.
    pub closed spec fn spec_content(&self) -> Seq<char> {
        self.content@
    }

    /// Appends text to the draft.
    pub fn add_text(&mut self, text: &str)
        ensures
            final(self).spec_content() == old(self).spec_content() + text@,
    {
        self.content.append(text);
    }

    /// Sends the draft to review, keeping its text.
    pub fn request_review(self) -> (r: PendingReviewPost)
        ensures
            r.spec_content() == self.spec_content(),
    {
        PendingReviewPost { content: self.content }
    }
}

impl PendingReviewPost {
    /// The text under review, for contracts.
    pub closed spec fn spec_content(&self) -> Seq<char> {
        self.content@
    }

    /// Approves the post, publishing its text unchanged.
    pub fn approve(self) -> (r: PostRust)
        ensures
            r.spec_content() == self.spec_content(),
    {
        PostRust { content: self.content }
    }
}

} // verus!

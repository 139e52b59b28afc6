//! A blog post as one type carrying an explicit review state: draft,
//! pending a first review, pending a second look, or published. Text can
//! only be added to a draft, and only a published post shows its content.

use vstd::prelude::*;
use vstd::string::*;

verus! {

/// The review stages of a post.
#[derive(Clone, Copy, PartialEq, Eq, Structural, Debug)]
pub enum State {
    Draft,
    PendingReview,
    Secondview,
    Published,
}

/// A post: its review state and the text written so far.
pub struct Post {
    state: State,
    content: String,
}

impl Post {
    /// The review state, for contracts.
    pub closed spec fn spec_state(&self) -> State {
        self.state
    }

    /// The stored text, for contracts.
    pub closed spec fn spec_content(&self) -> Seq<char> {
        self.content@
    }

    /// A new post is an empty draft.
    pub fn new() -> (r: Post)
        ensures
            r.spec_state() is Draft,
            r.spec_content().len() == 0,
    {
        Post { state: State::Draft, content: String::new() }
    }

    /// Appends text, but only while the post is a draft; in any other
    /// state the text is left alone. The state never changes here.
    pub fn add_text(&mut self, text: &str)
        ensures
            final(self).spec_state() == old(self).spec_state(),
            old(self).spec_state() is Draft ==> final(self).spec_content() == old(
                self,
            ).spec_content() + text@,
            !(old(self).spec_state() is Draft) ==> final(self).spec_content() == old(
                self,
            ).spec_content(),
    {
        if self.can_add_text() {
            self.content.append(text);
        }
    }

    /// Whether text may be added right now: only in a draft.
    pub fn can_add_text(&self) -> (r: bool)
        ensures
            r == (self.spec_state() is Draft),
    {
        self.state == State::Draft
    }

    /// The readable content: the stored text once published, and empty in
    /// every earlier state.
    pub fn content(&self) -> (r: &str)
        ensures
            self.spec_state() is Published ==> r@ == self.spec_content(),
            !(self.spec_state() is Published) ==> r@.len() == 0,
    {
        match self.state {
            State::Published => self.content.as_str(),
            _ => {
                let empty = "";
                proof {
                    reveal_strlit("");
                }
                empty
            },
        }
    }

    /// Asks for review: a draft moves to pending review; every other
    /// state stays put. The text never changes.
    pub fn request_review(&mut self)
        ensures
            final(self).spec_content() == old(self).spec_content(),
            final(self).spec_state() == match old(self).spec_state() {
                State::Draft => State::PendingReview,
                s => s,
            },
    {
        if self.state == State::Draft {
            self.state = State::PendingReview;
        }
    }

    /// Rejects a post under first review back to draft; every other
    /// state, the second look included, stays put. The text never changes.
    pub fn reject(&mut self)
        ensures
            final(self).spec_content() == old(self).spec_content(),
            final(self).spec_state() == match old(self).spec_state() {
                State::PendingReview => State::Draft,
                s => s,
            },
    {
        if self.state == State::PendingReview {
            self.state = State::Draft;
        }
    }

    /// Approves once: pending review moves to the second look, and the
    /// second look to published; drafts and published posts stay put.
    /// The text never changes.
    pub fn approve(&mut self)
        ensures
            final(self).spec_content() == old(self).spec_content(),
            final(self).spec_state() == match old(self).spec_state() {
                State::PendingReview => State::Secondview,
                State::Secondview => State::Published,
                s => s,
            },
    {
        if self.state == State::PendingReview {
            self.state = State::Secondview;
        } else if self.state == State::Secondview {
            self.state = State::Published;
        }
    }
}

} // verus!

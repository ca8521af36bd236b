//! A blog post whose review workflow is tracked at run time.
//!
//! A [`Post`] starts as an empty draft.  Text can be added at any stage;
//! requesting a review moves a draft under review, approval publishes a post
//! under review, and every other transition request leaves the post where it
//! was.  Only a published post shows its content — earlier stages show the
//! empty string, so an unapproved draft can never leak.

use vstd::prelude::*;
use vstd::string::StringExecFns;

verus! {

/// Where a post stands in the review workflow.
pub enum Phase {
    /// Freshly created, still being written.
    Draft,
    /// A review has been requested.
    PendingReview,
    /// Approved; the content is visible.
    Published,
}

/// A blog post: its accumulated text and its workflow phase.
pub struct Post {
    phase: Phase,
    content: String,
}

impl Post {
    /// The workflow phase, for specifications.
    pub closed spec fn phase(&self) -> Phase {
        self.phase
    }

    /// The accumulated text, for specifications.
    pub closed spec fn text(&self) -> Seq<char> {
        self.content@
    }

    /// A fresh post: an empty draft.
    pub fn new() -> (p: Post)
        ensures
            p.phase() is Draft,
            p.text() == Seq::<char>::empty(),
    {
        Post { phase: Phase::Draft, content: String::new() }
    }

    /// Appends `text` to the post's content, in any phase.
    pub fn add_text(&mut self, text: &str)
        ensures
            final(self).phase() == old(self).phase(),
            final(self).text() == old(self).text() + text@,
    {
        self.content.append(text);
    }

    /// The visible content: the accumulated text once the post is published,
    /// and the empty string in every earlier phase.
    pub fn content(&self) -> (r: &str)
        ensures
            self.phase() is Published ==> r@ == self.text(),
            !(self.phase() is Published) ==> r@ == Seq::<char>::empty(),
    {
        match self.phase {
            Phase::Published => self.content.as_str(),
            _ => {
                proof {
                    reveal_strlit("");
                    assert(""@ =~= Seq::<char>::empty());
                }
                ""
            },
        }
    }

    /// Asks for a review: a draft moves under review, any other phase stays
    /// put.
    pub fn request_review(&mut self)
        ensures
            final(self).text() == old(self).text(),
            old(self).phase() is Draft ==> final(self).phase() is PendingReview,
            !(old(self).phase() is Draft) ==> final(self).phase() == old(self).phase(),
    {
        match self.phase {
            Phase::Draft => {
                self.phase = Phase::PendingReview;
            },
            _ => {},
        }
    }

    /// Approves the post: a post under review is published, any other phase
    /// stays put.
    pub fn approve(&mut self)
        ensures
            final(self).text() == old(self).text(),
            old(self).phase() is PendingReview ==> final(self).phase() is Published,
            !(old(self).phase() is PendingReview) ==> final(self).phase() == old(self).phase(),
    {
        match self.phase {
            Phase::PendingReview => {
                self.phase = Phase::Published;
            },
            _ => {},
        }
    }
}

} // verus!

//! The blog review workflow with each stage as its own type.
//!
//! Here an unapproved post cannot even be asked for its content: only
//! [`Post`] has a `content` method, and the only way to obtain a [`Post`] is
//! to walk a [`DraftPost`] through [`PendingReviewPost::approve`].  Each
//! transition consumes its stage, so a post cannot be reviewed twice or slip
//! back; invalid states are unrepresentable instead of checked at run time.

use vstd::prelude::*;
use vstd::string::StringExecFns;

verus! {

/// A published post; the only stage whose content is readable.
pub struct Post {
    content: String,
}

/// A post being written.
pub struct DraftPost {
    content: String,
}

/// A post waiting for approval.
pub struct PendingReviewPost {
    content: String,
}

impl Post {
    /// The published text, for specifications.
    pub closed spec fn text(&self) -> Seq<char> {
        self.content@
    }

    /// Starts a new post: writing always begins with an empty draft.
    pub fn new() -> (p: DraftPost)
        ensures
            p.text() == Seq::<char>::empty(),
    {
        DraftPost { content: String::new() }
    }

    /// The published content.
    pub fn content(&self) -> (r: &str)
        ensures
            r@ == self.text(),
    {
        self.content.as_str()
    }
}

impl DraftPost {
    /// The accumulated text, for specifications.
    pub closed spec fn text(&self) -> Seq<char> {
        self.content@
    }

    /// Appends `text` to the draft.
    pub fn add_text(&mut self, text: &str)
        ensures
            final(self).text() == old(self).text() + text@,
    {
        self.content.append(text);
    }

    /// Submits the draft for review, consuming the draft stage.
    pub fn request_review(self) -> (p: PendingReviewPost)
        ensures
            p.text() == self.text(),
    {
        PendingReviewPost { content: self.content }
    }
}

impl PendingReviewPost {
    /// The text under review, for specifications.
    pub closed spec fn text(&self) -> Seq<char> {
        self.content@
    }

    /// Approves the post, consuming the review stage; the text is published
    /// unchanged.
    pub fn approve(self) -> (p: Post)
        ensures
            p.text() == self.text(),
    {
        Post { content: self.content }
    }
}

} // verus!

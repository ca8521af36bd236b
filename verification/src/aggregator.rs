//! Summaries of content from different sources.
//!
//! [`Summary`] is the one trait of the library meant for its users to
//! implement: each implementer says, as a specification, what its summary
//! and author lines are, and the executable methods are held to exactly
//! those strings.  An implementer that does not care to design a summary
//! line may leave `summary_spec` at its default — "Read more from
//! <author> ...." — and implement `summarize` against that.

use vstd::prelude::*;
use vstd::string::StringExecFns;

verus! {

/// Something that can be summarized to one line of text.
pub trait Summary {
    /// The summary line an implementation promises, for specifications.
    open spec fn summary_spec(&self) -> Seq<char> {
        "Read more from "@ + self.author_spec() + " ...."@
    }

    /// The author line an implementation promises, for specifications.
    spec fn author_spec(&self) -> Seq<char>;

    /// The summary line.
    fn summarize(&self) -> (r: String)
        ensures
            r@ == self.summary_spec(),
    ;

    /// The author line.
    fn summarize_auther(&self) -> (r: String)
        ensures
            r@ == self.author_spec(),
    ;
}

/// A news article: headline, location, author and body.
pub struct NewsArticle {
    /// The headline.
    pub headline: String,
    /// Where the story happened.
    pub location: String,
    /// Who wrote it.
    pub author: String,
    /// The body text.
    pub content: String,
}

impl Summary for NewsArticle {
    open spec fn summary_spec(&self) -> Seq<char> {
        self.headline@ + ", by "@ + self.author@ + " ("@ + self.location@ + ")"@
    }

    open spec fn author_spec(&self) -> Seq<char> {
        "@"@ + self.author@
    }

    fn summarize(&self) -> (r: String)
        ensures
            r@ == self.summary_spec(),
    {
        self.headline.clone().concat(", by ").concat(self.author.as_str()).concat(" (").concat(
            self.location.as_str(),
        ).concat(")")
    }

    fn summarize_auther(&self) -> (r: String)
        ensures
            r@ == self.author_spec(),
    {
        String::from_str("@").concat(self.author.as_str())
    }
}

/// A tweet: who posted it and what it says.
pub struct Tweet {
    /// The posting account.
    pub username: String,
    /// The tweet's text.
    pub content: String,
    /// Whether this is a reply.
    pub reply: bool,
    /// Whether this is a retweet.
    pub retweet: bool,
}

impl Summary for Tweet {
    open spec fn summary_spec(&self) -> Seq<char> {
        self.username@ + ": "@ + self.content@
    }

    open spec fn author_spec(&self) -> Seq<char> {
        "@"@ + self.username@
    }

    fn summarize(&self) -> (r: String)
        ensures
            r@ == self.summary_spec(),
    {
        self.username.clone().concat(": ").concat(self.content.as_str())
    }

    fn summarize_auther(&self) -> (r: String)
        ensures
            r@ == self.author_spec(),
    {
        String::from_str("@").concat(self.username.as_str())
    }
}

} // verus!

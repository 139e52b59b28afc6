//! Summaries of articles and tweets behind one trait, with the rendered
//! strings pinned character for character.

use vstd::prelude::*;
use vstd::string::*;

verus! {

/// Anything that can present itself in one line and name its author.
/// `spec_summary` and `spec_author` are the renderings as specification;
/// the methods must produce exactly them.
pub trait Summary {
    /// The one-line rendering, for contracts.
    spec fn spec_summary(&self) -> Seq<char>;

    /// The author handle, for contracts.
    spec fn spec_author(&self) -> Seq<char>;

    /// A one-line rendering of the content.
    fn summarize(&self) -> (r: String)
        ensures
            r@ == self.spec_summary(),
    ;

    /// A short handle naming the author.
    fn summarize_author(&self) -> (r: String)
        ensures
            r@ == self.spec_author(),
    ;

    /// A teaser that only names the author.
    fn default_impl(&self) -> (r: String)
        ensures
            r@ == "(Read more from "@ + self.spec_author() + "...)"@,
    {
        String::from_str("(Read more from ").concat(self.summarize_author().as_str()).concat(
            "...)",
        )
    }
}

/// A news article with a headline, a location, an author, and a body.
pub struct NewsArticle {
    pub headline: String,
    pub location: String,
    pub author: String,
    pub content: String,
}

impl Summary for NewsArticle {
    open spec fn spec_summary(&self) -> Seq<char> {
        self.headline@ + ", by "@ + self.author@ + " ("@ + self.location@ + ")"@
    }

    open spec fn spec_author(&self) -> Seq<char> {
        self.author@
    }

    /// "headline, by author (location)".
    fn summarize(&self) -> (r: String)
        ensures
            r@ == self.spec_summary(),
    {
        self.headline.clone().concat(", by ").concat(self.author.as_str()).concat(" (").concat(
            self.location.as_str(),
        ).concat(")")
    }

    /// The author's name as written.
    fn summarize_author(&self) -> (r: String)
        ensures
            r@ == self.spec_author(),
    {
        self.author.clone()
    }
}

/// A tweet: who wrote it, what it says, and how it was posted.
pub struct Tweet {
    pub username: String,
    pub content: String,
    pub reply: bool,
    pub retweet: bool,
}

impl Summary for Tweet {
    open spec fn spec_summary(&self) -> Seq<char> {
        self.username@ + ": "@ + self.content@
    }

    open spec fn spec_author(&self) -> Seq<char> {
        "@"@ + self.username@
    }

    /// "username: content".
    fn summarize(&self) -> (r: String)
        ensures
            r@ == self.spec_summary(),
    {
        self.username.clone().concat(": ").concat(self.content.as_str())
    }

    /// "@username".
    fn summarize_author(&self) -> (r: String)
        ensures
            r@ == self.spec_author(),
    {
        String::from_str("@").concat(self.username.as_str())
    }
}

/// A fixed tweet that any summary-consuming caller can try.
pub fn returns_summarizable() -> (r: Tweet)
    ensures
        r.username@ == "horse_ebooks"@,
        r.content@ == "of course, as you probably already know, people"@,
        !r.reply,
        !r.retweet,
{
    Tweet {
        username: String::from_str("horse_ebooks"),
        content: String::from_str("of course, as you probably already know, people"),
        reply: false,
        retweet: false,
    }
}

/// Prefixes a summary with a breaking-news banner.
pub fn notify(summary: &impl Summary) -> (r: String)
    ensures
        r@ == "Breaking news! "@ + summary.spec_summary(),
{
    String::from_str("Breaking news! ").concat(summary.summarize().as_str())
}

/// Accepts two summaries of possibly different types.
pub fn _notify_second(summary1: &impl Summary, summary2: &impl Summary) {
    let _ = summary1;
    let _ = summary2;
}

/// Accepts two summaries of one and the same type.
pub fn _notify_same<T: Summary>(summary1: &T, summary2: &T) {
    let _ = summary1;
    let _ = summary2;
}

/// Accepts any summary.
pub fn _notify_more(summary: &impl Summary) {
    let _ = summary;
}

/// Accepts any summary, spelled as an explicit bound.
pub fn _notify_more_bound<T: Summary>(summary: &T) {
    let _ = summary;
}

/// A fixed answer whatever the two cloneable arguments are.
pub fn _some_function<T: Clone, U: Clone>(t: &T, u: &U) -> (r: i32)
    ensures
        r == 55,
{
    let _ = t;
    let _ = u;
    55
}

/// The same fixed answer, with the bounds in a where clause.
pub fn _some_function_siple<T, U>(t: &T, u: &U) -> (r: i32) where T: Clone, U: Clone
    ensures
        r == 55,
{
    let _ = t;
    let _ = u;
    55
}

/// A pair of two values of one type.
pub struct Pair<T> {
    pub x: T,
    pub y: T,
}

impl<T> Pair<T> {
    /// Wraps the two values.
    pub fn new(x: T, y: T) -> (r: Self)
        ensures
            r.x == x,
            r.y == y,
    {
        Pair { x, y }
    }
}

} // verus!
